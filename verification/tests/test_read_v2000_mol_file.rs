use appa::Error;
use appa::ReadMolFileV2000;
use appa::SourceLine;

fn reader_over(lines: &[&str]) -> ReadMolFileV2000 {
    let mut source = Vec::new();
    for line in lines {
        source.push(SourceLine::Text(String::from(*line)));
    }
    ReadMolFileV2000::new(source)
}

fn fixture_1() -> Vec<&'static str> {
    vec![
        "",
        "     RDKit          2D",
        "",
        "  3  2  0  0  0  0  0  0  0  0999 V2000",
        "    0.0000    0.0000    0.0000 C   0  0  0  0  0  0  0  0  0  0  0  0",
        "    1.2990    0.7500    0.0000 C   0  0  0  0  0  0  0  0  0  0  0  0",
        "    2.5981    0.0000    0.0000 N   0  0  0  0  0  0  0  0  0  0  0  0",
        "  1  2  1  0",
        "  2  3  1  0",
        "M  END",
    ]
}

fn fixture_2() -> Vec<&'static str> {
    vec![
        "",
        "     RDKit          2D",
        "",
        "  3  2  0  0  0  0  0  0  0  0999 V2000",
        "    0.0000    0.0000    0.0000 C   0  0  0  0  0  0  0  0  0  0  0  0",
        "    1.2990    0.7500    0.0000 C   0  0  0  0  0  0  0  0  0  0  0  0",
        "    2.5981    1.5000    0.0000 N   0  0  0  0  0  0  0  0  0  0  0  0",
        "  1  2  1  0",
        "  2  3  1  0",
        "M  CHG    2   2",
        "M  END",
    ]
}

fn coords_as_f32(molecule: &appa::Molecule) -> Option<Vec<[f32; 3]>> {
    molecule.atom_coordinates.as_ref().map(|cs| {
        cs.iter()
            .map(|c| {
                [
                    c.x.parse::<f32>().unwrap(),
                    c.y.parse::<f32>().unwrap(),
                    c.z.parse::<f32>().unwrap(),
                ]
            })
            .collect()
    })
}

#[test]
fn read_file_1() {
    let mut reader = reader_over(&fixture_1());
    let data = reader.next().unwrap().unwrap();
    assert_eq!(data.title, "     RDKit          2D");
    assert_eq!(data.molecule.atomic_numbers, vec![6, 6, 7]);
    assert!(data.molecule.atom_charges.is_none());
    assert_eq!(
        coords_as_f32(&data.molecule),
        Some(vec![
            [0.0, 0.0, 0.0],
            [1.299, 0.75, 0.0],
            [2.5981, 0.0, 0.0]
        ])
    );
    let integer_bonds = data.molecule.integer_bonds.unwrap();
    assert_eq!(integer_bonds.atoms1, vec![1, 2]);
    assert_eq!(integer_bonds.atoms2, vec![2, 3]);
    assert_eq!(integer_bonds.orders, vec![1, 1]);
    assert!(data.molecule.dative_bonds.is_none());
    assert!(data.molecule.aromatic_bonds.is_none());
    assert!(data.properties.is_empty());
    assert!(reader.next().is_none());
}

#[test]
fn read_file_2() {
    let mut reader = reader_over(&fixture_2());
    let data = reader.next().unwrap().unwrap();
    assert_eq!(data.title, "     RDKit          2D");
    assert_eq!(data.molecule.atomic_numbers, vec![6, 6, 7]);
    assert_eq!(data.molecule.atom_charges, Some(vec![0, 2, 0]));
    assert_eq!(
        coords_as_f32(&data.molecule),
        Some(vec![
            [0.0, 0.0, 0.0],
            [1.299, 0.75, 0.0],
            [2.5981, 1.5, 0.0]
        ])
    );
    let integer_bonds = data.molecule.integer_bonds.unwrap();
    assert_eq!(integer_bonds.atoms1, vec![1, 2]);
    assert_eq!(integer_bonds.atoms2, vec![2, 3]);
    assert_eq!(integer_bonds.orders, vec![1, 1]);
    assert!(data.molecule.dative_bonds.is_none());
    assert!(data.molecule.aromatic_bonds.is_none());
    assert!(reader.next().is_none());
}

#[test]
fn two_records_back_to_back() {
    let mut lines = fixture_1();
    lines.extend(fixture_2());
    let mut reader = reader_over(&lines);
    let first = reader.next().unwrap().unwrap();
    assert!(first.molecule.atom_charges.is_none());
    let second = reader.next().unwrap().unwrap();
    assert_eq!(second.molecule.atom_charges, Some(vec![0, 2, 0]));
    assert!(reader.next().is_none());
}

#[test]
fn resync_yields_one_err_then_ok() {
    let mut lines = vec![
        "",
        "broken molecule",
        "",
        "not a counts line",
        "$$$$",
    ];
    lines.extend(fixture_1());
    let mut reader = reader_over(&lines);
    let first = reader.next().unwrap();
    match first {
        Err(Error::ParseInt { text, line }) => {
            assert_eq!(text, "not");
            assert_eq!(line, "not a counts line");
        }
        other => panic!("expected an integer field failure, got {:?}", other.is_ok()),
    }
    let second = reader.next().unwrap().unwrap();
    assert_eq!(second.molecule.atomic_numbers, vec![6, 6, 7]);
    assert!(reader.next().is_none());
}

#[test]
fn unknown_element_is_domain_failure_and_resync_works() {
    let mut lines = vec![
        "",
        "bad atom",
        "",
        "  1  0  0  0  0  0  0  0  0  0999 V2000",
        "    0.0000    0.0000    0.0000 Xx  0  0  0  0  0  0  0  0  0  0  0  0",
        "M  END",
        "$$$$",
    ];
    lines.extend(fixture_1());
    let mut reader = reader_over(&lines);
    match reader.next().unwrap() {
        Err(Error::ParseFile(text)) => assert_eq!(text, "Xx "),
        _ => panic!("expected a domain failure"),
    }
    let second = reader.next().unwrap().unwrap();
    assert_eq!(second.molecule.atomic_numbers, vec![6, 6, 7]);
    assert!(reader.next().is_none());
}

#[test]
fn float_field_failure_carries_text_and_line() {
    let lines = vec![
        "",
        "bad coordinate",
        "",
        "  1  0  0  0  0  0  0  0  0  0999 V2000",
        "    0.00x0    0.0000    0.0000 C   0  0  0  0  0  0  0  0  0  0  0  0",
        "M  END",
    ];
    let mut reader = reader_over(&lines);
    match reader.next().unwrap() {
        Err(Error::ParseFloat { text, line }) => {
            assert_eq!(text, "    0.00x0");
            assert_eq!(line, "    0.00x0    0.0000    0.0000 C   0  0  0  0  0  0  0  0  0  0  0  0");
        }
        _ => panic!("expected a float field failure"),
    }
    assert!(reader.next().is_none());
}

#[test]
fn io_fault_is_surfaced_and_recovered_from() {
    let mut source = vec![
        SourceLine::Text(String::from("")),
        SourceLine::Fault(String::from("disk trouble")),
        SourceLine::Text(String::from("$$$$")),
    ];
    for line in fixture_1() {
        source.push(SourceLine::Text(String::from(line)));
    }
    let mut reader = ReadMolFileV2000::new(source);
    match reader.next().unwrap() {
        Err(Error::Io(message)) => assert_eq!(message, "disk trouble"),
        _ => panic!("expected an input fault"),
    }
    let second = reader.next().unwrap().unwrap();
    assert_eq!(second.molecule.atomic_numbers, vec![6, 6, 7]);
}

#[test]
fn truncated_record_ends_silently() {
    let lines = vec![
        "",
        "cut off",
        "",
        "  3  0  0  0  0  0  0  0  0  0999 V2000",
        "    0.0000    0.0000    0.0000 C   0  0  0  0  0  0  0  0  0  0  0  0",
    ];
    let mut reader = reader_over(&lines);
    assert!(reader.next().is_none());
    assert!(reader.next().is_none());
}

#[test]
fn empty_source_ends_at_once() {
    let mut reader = reader_over(&[]);
    assert!(reader.next().is_none());
}

#[test]
fn unrecognized_property_tags_are_skipped() {
    let lines = vec![
        "",
        "tagged",
        "",
        "  1  0  0  0  0  0  0  0  0  0999 V2000",
        "    0.0000    0.0000    0.0000 C   0  0  0  0  0  0  0  0  0  0  0  0",
        "M  ISO  1   1   2",
        "A  strange line",
        "M  END",
    ];
    let mut reader = reader_over(&lines);
    let data = reader.next().unwrap().unwrap();
    assert_eq!(data.molecule.atomic_numbers, vec![6]);
    assert!(data.molecule.atom_charges.is_none());
    assert!(data.properties.is_empty());
    assert!(reader.next().is_none());
}

#[test]
fn charge_defaults_to_zero_for_unmentioned_atoms() {
    let lines = vec![
        "",
        "charged",
        "",
        "  3  0  0  0  0  0  0  0  0  0999 V2000",
        "    0.0000    0.0000    0.0000 C   0  0  0  0  0  0  0  0  0  0  0  0",
        "    0.0000    0.0000    0.0000 C   0  0  0  0  0  0  0  0  0  0  0  0",
        "    0.0000    0.0000    0.0000 C   0  0  0  0  0  0  0  0  0  0  0  0",
        "M  CHG    1  -1",
        "M  END",
    ];
    let mut reader = reader_over(&lines);
    let data = reader.next().unwrap().unwrap();
    assert_eq!(data.molecule.atom_charges, Some(vec![-1, 0, 0]));
}

#[test]
fn later_charge_line_overwrites_its_atom() {
    let lines = vec![
        "",
        "charged twice",
        "",
        "  2  0  0  0  0  0  0  0  0  0999 V2000",
        "    0.0000    0.0000    0.0000 C   0  0  0  0  0  0  0  0  0  0  0  0",
        "    0.0000    0.0000    0.0000 C   0  0  0  0  0  0  0  0  0  0  0  0",
        "M  CHG    1   3",
        "M  CHG    1  -2",
        "M  END",
    ];
    let mut reader = reader_over(&lines);
    let data = reader.next().unwrap().unwrap();
    assert_eq!(data.molecule.atom_charges, Some(vec![-2, 0]));
}

#[test]
fn charge_index_outside_atom_block_is_domain_failure() {
    let lines = vec![
        "",
        "charge out of range",
        "",
        "  1  0  0  0  0  0  0  0  0  0999 V2000",
        "    0.0000    0.0000    0.0000 C   0  0  0  0  0  0  0  0  0  0  0  0",
        "M  CHG    5   1",
        "M  END",
    ];
    let mut reader = reader_over(&lines);
    match reader.next().unwrap() {
        Err(Error::ParseFile(text)) => assert_eq!(text, "  5"),
        _ => panic!("expected a domain failure"),
    }
}

#[test]
fn bond_indices_are_not_range_checked() {
    let lines = vec![
        "",
        "loose bond",
        "",
        "  1  1  0  0  0  0  0  0  0  0999 V2000",
        "    0.0000    0.0000    0.0000 C   0  0  0  0  0  0  0  0  0  0  0  0",
        "  7  9  1  0",
        "M  END",
    ];
    let mut reader = reader_over(&lines);
    let data = reader.next().unwrap().unwrap();
    let bonds = data.molecule.integer_bonds.unwrap();
    assert_eq!(bonds.atoms1, vec![7]);
    assert_eq!(bonds.atoms2, vec![9]);
    assert_eq!(bonds.orders, vec![1]);
}

#[test]
fn counts_line_failure_names_field_and_line() {
    let lines = vec!["", "title", "", "  3  x  0  0999 V2000"];
    let mut reader = reader_over(&lines);
    match reader.next().unwrap() {
        Err(Error::ParseInt { text, line }) => {
            assert_eq!(text, "  x");
            assert_eq!(line, "  3  x  0  0999 V2000");
        }
        _ => panic!("expected an integer field failure"),
    }
}

#[test]
fn atomic_number_lookup_trims_and_resolves() {
    assert_eq!(appa::atomic_number_from_str("H").unwrap(), 1);
    assert_eq!(appa::atomic_number_from_str(" C ").unwrap(), 6);
    assert_eq!(appa::atomic_number_from_str("Cl ").unwrap(), 17);
    assert_eq!(appa::atomic_number_from_str("Og").unwrap(), 118);
    match appa::atomic_number_from_str("Qq") {
        Err(Error::ParseFile(text)) => assert_eq!(text, "Qq"),
        _ => panic!("expected a domain failure"),
    }
}

#[test]
fn error_kind_labels_variants() {
    assert_eq!(Error::Io(String::new()).kind(), "io");
    assert_eq!(
        Error::ParseInt {
            text: String::new(),
            line: String::new()
        }
        .kind(),
        "integer"
    );
    assert_eq!(
        Error::ParseFloat {
            text: String::new(),
            line: String::new()
        }
        .kind(),
        "float"
    );
    assert_eq!(Error::ParseFile(String::new()).kind(), "domain");
}

#[test]
fn source_ending_while_resynchronizing_ends_iteration() {
    let lines = vec!["", "broken", "", "bad counts", "junk that never ends"];
    let mut reader = reader_over(&lines);
    assert!(reader.next().unwrap().is_err());
    assert!(reader.next().is_none());
    assert!(reader.next().is_none());
}
