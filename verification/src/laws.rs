//! The guarantees of the reader, stated and proved over the model: parsed
//! records honour their counts line, the charge overlay exists exactly
//! when a charge line occurred and defaults to zero, an unknown element
//! symbol is a domain failure for its record alone, and after any error
//! the reader resumes at the first delimiter line that follows.

use vstd::prelude::*;
use crate::data::CoordinateModel;
use crate::elements::atomic_number_of;
use crate::error::ErrorModel;
use crate::float_text::is_float_text;
use crate::model::AtomsModel;
use crate::model::BondsBlockModel;
use crate::model::LineModel;
use crate::model::PropsModel;
use crate::model::StepModel;
use crate::model::atom_lines;
use crate::model::bond_lines;
use crate::model::property_lines;
use crate::model::reader_step;
use crate::model::record_step;
use crate::model::resync_position;
use crate::numbers::parse_i8_spec;
use crate::numbers::parse_u16_spec;
use crate::numbers::parse_u32_spec;
use crate::numbers::parse_u8_spec;
use crate::text::column_field;
use crate::text::trimmed;

verus! {

/// The atom count the record's counts line declares, if the line is there
/// and its field decodes.
pub open spec fn declared_atoms(lines: Seq<LineModel>, start: int) -> Option<u16> {
    if 0 <= start && start + 3 < lines.len() {
        match lines[start + 3] {
            LineModel::Text(c) => parse_u16_spec(trimmed(column_field(c, 0, 3))),
            LineModel::Fault(_) => Option::None,
        }
    } else {
        Option::None
    }
}

/// The bond count the record's counts line declares.
pub open spec fn declared_bonds(lines: Seq<LineModel>, start: int) -> Option<u16> {
    if 0 <= start && start + 3 < lines.len() {
        match lines[start + 3] {
            LineModel::Text(c) => parse_u16_spec(trimmed(column_field(c, 3, 6))),
            LineModel::Fault(_) => Option::None,
        }
    } else {
        Option::None
    }
}

/// The position a pull parses its record from: the current one, or the
/// one just past the next delimiter while resynchronizing (the length of
/// the source when no delimiter is left).
pub open spec fn parse_start(lines: Seq<LineModel>, pos: int, seek: bool) -> int {
    if seek {
        match resync_position(lines, pos) {
            Option::Some(q) => q,
            Option::None => lines.len() as int,
        }
    } else {
        pos
    }
}

/// A parsed atom block adds exactly `remaining` atoms and as many
/// coordinate triples.
proof fn lemma_atom_lines_len(
    lines: Seq<LineModel>,
    pos: int,
    remaining: int,
    numbers: Seq<u8>,
    coords: Seq<CoordinateModel>,
)
    requires
        remaining >= 0,
    ensures
        atom_lines(lines, pos, remaining, numbers, coords) matches AtomsModel::Parsed {
            numbers: ns,
            coords: cs,
            ..
        } ==> ns.len() == numbers.len() + remaining && cs.len() == coords.len() + remaining,
    decreases remaining,
{
    if remaining > 0 && 0 <= pos < lines.len() {
        match lines[pos] {
            LineModel::Fault(_) => {},
            LineModel::Text(line) => {
                let xf = column_field(line, 0, 10);
                let yf = column_field(line, 10, 20);
                let zf = column_field(line, 20, 30);
                let sf = column_field(line, 31, 34);
                match atomic_number_of(sf) {
                    Option::None => {},
                    Option::Some(n) => {
                        lemma_atom_lines_len(
                            lines,
                            pos + 1,
                            remaining - 1,
                            numbers.push(n),
                            coords.push(
                                CoordinateModel {
                                    x: trimmed(xf),
                                    y: trimmed(yf),
                                    z: trimmed(zf),
                                },
                            ),
                        );
                    },
                }
            },
        }
    }
}

/// A parsed bond block adds exactly `remaining` bonds to each of the
/// three sequences.
proof fn lemma_bond_lines_len(
    lines: Seq<LineModel>,
    pos: int,
    remaining: int,
    atoms1: Seq<u32>,
    atoms2: Seq<u32>,
    orders: Seq<u8>,
)
    requires
        remaining >= 0,
    ensures
        bond_lines(lines, pos, remaining, atoms1, atoms2, orders) matches BondsBlockModel::Parsed {
            atoms1: a1,
            atoms2: a2,
            orders: os,
            ..
        } ==> a1.len() == atoms1.len() + remaining && a2.len() == atoms2.len() + remaining
            && os.len() == orders.len() + remaining,
    decreases remaining,
{
    if remaining > 0 && 0 <= pos < lines.len() {
        match lines[pos] {
            LineModel::Fault(_) => {},
            LineModel::Text(line) => {
                let f1 = column_field(line, 0, 3);
                let f2 = column_field(line, 3, 6);
                let f3 = column_field(line, 6, 9);
                match (parse_u32_spec(trimmed(f1)), parse_u32_spec(trimmed(f2)), parse_u8_spec(
                    trimmed(f3),
                )) {
                    (Option::Some(a1), Option::Some(a2), Option::Some(ord)) => {
                        lemma_bond_lines_len(
                            lines,
                            pos + 1,
                            remaining - 1,
                            atoms1.push(a1),
                            atoms2.push(a2),
                            orders.push(ord),
                        );
                    },
                    _ => {},
                }
            },
        }
    }
}

/// A present charge overlay keeps one entry per atom through the whole
/// property block.
proof fn lemma_property_lines_len(
    lines: Seq<LineModel>,
    pos: int,
    num_atoms: int,
    charges: Option<Seq<i8>>,
)
    requires
        num_atoms >= 0,
        charges matches Option::Some(c) ==> c.len() == num_atoms,
    ensures
        property_lines(lines, pos, num_atoms, charges) matches PropsModel::Parsed {
            charges: Option::Some(out),
            ..
        } ==> out.len() == num_atoms,
    decreases lines.len() - pos,
{
    if 0 <= pos < lines.len() {
        match lines[pos] {
            LineModel::Fault(_) => {},
            LineModel::Text(line) => {
                if line == "M  END"@ {
                } else if column_field(line, 3, 6) == "CHG"@ {
                    let af = column_field(line, 8, 11);
                    let cf = column_field(line, 12, 15);
                    match (parse_u16_spec(trimmed(af)), parse_i8_spec(trimmed(cf))) {
                        (Option::Some(atom), Option::Some(charge)) => {
                            if 1 <= atom && atom as int <= num_atoms {
                                let base = match charges {
                                    Option::Some(c) => c,
                                    Option::None => Seq::new(num_atoms as nat, |i: int| 0i8),
                                };
                                lemma_property_lines_len(
                                    lines,
                                    pos + 1,
                                    num_atoms,
                                    Option::Some(base.update(atom as int - 1, charge)),
                                );
                            }
                        },
                        _ => {},
                    }
                } else {
                    lemma_property_lines_len(lines, pos + 1, num_atoms, charges);
                }
            },
        }
    }
}

/// Every record that parses honours its counts line: as many atomic
/// numbers and coordinate triples as the declared atom count, bond
/// sequences of the declared bond count, and a charge overlay, when
/// present, with one entry per atom.
pub proof fn lemma_record_lengths(lines: Seq<LineModel>, start: int)
    ensures
        record_step(lines, start).item matches Option::Some(Result::Ok(rec)) ==> (
        declared_atoms(lines, start) matches Option::Some(na) && declared_bonds(lines, start)
            matches Option::Some(nb) && rec.molecule.atomic_numbers.len() == na as int && (
        rec.molecule.atom_coordinates matches Option::Some(cs) && cs.len() == na as int) && (
        rec.molecule.integer_bonds matches Option::Some(b) && b.atoms1.len() == nb as int
            && b.atoms2.len() == nb as int && b.orders.len() == nb as int) && (
        rec.molecule.atom_charges matches Option::Some(ch) ==> ch.len() == na as int)),
{
    let n = lines.len() as int;
    if 0 <= start && start + 3 < n {
        match lines[start + 3] {
            LineModel::Fault(_) => {},
            LineModel::Text(counts) => {
                let naf = column_field(counts, 0, 3);
                let nbf = column_field(counts, 3, 6);
                match (parse_u16_spec(trimmed(naf)), parse_u16_spec(trimmed(nbf))) {
                    (Option::Some(na), Option::Some(nb)) => {
                        lemma_atom_lines_len(
                            lines,
                            start + 4,
                            na as int,
                            Seq::empty(),
                            Seq::empty(),
                        );
                        match atom_lines(lines, start + 4, na as int, Seq::empty(), Seq::empty()) {
                            AtomsModel::Parsed { pos: apos, .. } => {
                                lemma_bond_lines_len(
                                    lines,
                                    apos,
                                    nb as int,
                                    Seq::empty(),
                                    Seq::empty(),
                                    Seq::empty(),
                                );
                                match bond_lines(
                                    lines,
                                    apos,
                                    nb as int,
                                    Seq::empty(),
                                    Seq::empty(),
                                    Seq::empty(),
                                ) {
                                    BondsBlockModel::Parsed { pos: bpos, .. } => {
                                        lemma_property_lines_len(
                                            lines,
                                            bpos,
                                            na as int,
                                            Option::None,
                                        );
                                    },
                                    _ => {},
                                }
                            },
                            _ => {},
                        }
                    },
                    _ => {},
                }
            },
        }
    }
}

/// The lengths law at the reader itself: whatever the state, a pull that
/// yields a record honours the counts line of the position it parsed
/// from.
pub proof fn lemma_reader_record_lengths(lines: Seq<LineModel>, pos: int, seek: bool)
    ensures
        reader_step(lines, pos, seek).item matches Option::Some(Result::Ok(rec)) ==> (
        declared_atoms(lines, parse_start(lines, pos, seek)) matches Option::Some(na)
            && declared_bonds(lines, parse_start(lines, pos, seek)) matches Option::Some(nb)
            && rec.molecule.atomic_numbers.len() == na as int && (rec.molecule.atom_coordinates
            matches Option::Some(cs) && cs.len() == na as int) && (rec.molecule.integer_bonds
            matches Option::Some(b) && b.atoms1.len() == nb as int && b.atoms2.len() == nb as int
            && b.orders.len() == nb as int) && (rec.molecule.atom_charges matches Option::Some(ch)
            ==> ch.len() == na as int)),
{
    lemma_record_lengths(lines, parse_start(lines, pos, seek));
}

/// The line is a charge property line: its tag field, columns 3 to 6, is
/// `CHG`.
pub open spec fn is_chg_line(l: LineModel) -> bool {
    l matches LineModel::Text(t) && column_field(t, 3, 6) == "CHG"@
}

/// The line is a charge property line whose atom-index field names atom
/// `j + 1`.
pub open spec fn mentions_atom(l: LineModel, j: int) -> bool {
    match l {
        LineModel::Text(t) => column_field(t, 3, 6) == "CHG"@ && (parse_u16_spec(
            trimmed(column_field(t, 8, 11)),
        ) matches Option::Some(a) && a as int == j + 1),
        LineModel::Fault(_) => false,
    }
}

/// The sentinel line is no charge line.
proof fn lemma_end_sentinel_not_chg(l: LineModel)
    requires
        l matches LineModel::Text(t) && t == "M  END"@,
    ensures
        !is_chg_line(l),
{
    reveal_strlit("M  END");
    reveal_strlit("CHG");
    match l {
        LineModel::Text(t) => {
            if column_field(t, 3, 6) == "CHG"@ {
                assert(column_field(t, 3, 6)[0] == 'E');
                assert("CHG"@[0] == 'C');
            }
        },
        LineModel::Fault(_) => {},
    }
}

/// The property block ends at or after where it began.
proof fn lemma_property_lines_end(
    lines: Seq<LineModel>,
    pos: int,
    num_atoms: int,
    charges: Option<Seq<i8>>,
)
    ensures
        property_lines(lines, pos, num_atoms, charges) matches PropsModel::Parsed { pos: end, .. }
            ==> end >= pos,
    decreases lines.len() - pos,
{
    if 0 <= pos < lines.len() {
        match lines[pos] {
            LineModel::Fault(_) => {},
            LineModel::Text(line) => {
                if line == "M  END"@ {
                } else if column_field(line, 3, 6) == "CHG"@ {
                    let af = column_field(line, 8, 11);
                    let cf = column_field(line, 12, 15);
                    match (parse_u16_spec(trimmed(af)), parse_i8_spec(trimmed(cf))) {
                        (Option::Some(atom), Option::Some(charge)) => {
                            if 1 <= atom && atom as int <= num_atoms {
                                let base = match charges {
                                    Option::Some(c) => c,
                                    Option::None => Seq::new(num_atoms as nat, |i: int| 0i8),
                                };
                                lemma_property_lines_end(
                                    lines,
                                    pos + 1,
                                    num_atoms,
                                    Option::Some(base.update(atom as int - 1, charge)),
                                );
                            }
                        },
                        _ => {},
                    }
                } else {
                    lemma_property_lines_end(lines, pos + 1, num_atoms, charges);
                }
            },
        }
    }
}

/// The charge overlay exists exactly when a charge line was processed:
/// carrying accumulator `charges`, the block parses to a present overlay
/// just when the accumulator was already present or a `CHG` line lies in
/// the consumed range.
proof fn lemma_charges_presence_from(
    lines: Seq<LineModel>,
    pos: int,
    num_atoms: int,
    charges: Option<Seq<i8>>,
)
    ensures
        property_lines(lines, pos, num_atoms, charges) matches PropsModel::Parsed {
            charges: out,
            pos: end,
        } ==> (out is Some <==> (charges is Some || exists|i: int|
            pos <= i < end && is_chg_line(#[trigger] lines[i]))),
    decreases lines.len() - pos,
{
    if 0 <= pos < lines.len() {
        match lines[pos] {
            LineModel::Fault(_) => {},
            LineModel::Text(line) => {
                if line == "M  END"@ {
                    lemma_end_sentinel_not_chg(lines[pos]);
                } else if column_field(line, 3, 6) == "CHG"@ {
                    let af = column_field(line, 8, 11);
                    let cf = column_field(line, 12, 15);
                    match (parse_u16_spec(trimmed(af)), parse_i8_spec(trimmed(cf))) {
                        (Option::Some(atom), Option::Some(charge)) => {
                            if 1 <= atom && atom as int <= num_atoms {
                                let base = match charges {
                                    Option::Some(c) => c,
                                    Option::None => Seq::new(num_atoms as nat, |i: int| 0i8),
                                };
                                let charges2 = Option::Some(base.update(atom as int - 1, charge));
                                lemma_charges_presence_from(lines, pos + 1, num_atoms, charges2);
                                lemma_property_lines_end(lines, pos + 1, num_atoms, charges2);
                                match property_lines(lines, pos + 1, num_atoms, charges2) {
                                    PropsModel::Parsed { charges: out, pos: end } => {
                                        assert(is_chg_line(lines[pos]));
                                        assert(pos <= pos < end);
                                    },
                                    _ => {},
                                }
                            }
                        },
                        _ => {},
                    }
                } else {
                    lemma_charges_presence_from(lines, pos + 1, num_atoms, charges);
                    match property_lines(lines, pos + 1, num_atoms, charges) {
                        PropsModel::Parsed { charges: out, pos: end } => {
                            assert(forall|i: int|
                                pos <= i < end && is_chg_line(#[trigger] lines[i]) ==> pos + 1 <= i
                                    < end);
                        },
                        _ => {},
                    }
                }
            },
        }
    }
}

/// If no `CHG` line occurs in the property block, the charge overlay is
/// absent; if one or more occur, it is present.
pub proof fn lemma_charges_presence(lines: Seq<LineModel>, pos: int, num_atoms: int)
    ensures
        property_lines(lines, pos, num_atoms, Option::None) matches PropsModel::Parsed {
            charges: out,
            pos: end,
        } ==> (out is Some <==> exists|i: int| pos <= i < end && is_chg_line(#[trigger] lines[i])),
{
    lemma_charges_presence_from(lines, pos, num_atoms, Option::None);
}

/// Entries for unmentioned atoms keep their accumulator value of zero.
proof fn lemma_unmentioned_zero_from(
    lines: Seq<LineModel>,
    pos: int,
    num_atoms: int,
    charges: Option<Seq<i8>>,
    j: int,
)
    requires
        0 <= j < num_atoms,
        charges matches Option::Some(c) ==> c.len() == num_atoms && c[j] == 0,
    ensures
        property_lines(lines, pos, num_atoms, charges) matches PropsModel::Parsed {
            charges: Option::Some(out),
            pos: end,
        } ==> ((forall|i: int| pos <= i < end ==> !mentions_atom(#[trigger] lines[i], j))
            ==> out.len() == num_atoms && out[j] == 0),
    decreases lines.len() - pos,
{
    lemma_property_lines_len(lines, pos, num_atoms, charges);
    if 0 <= pos < lines.len() {
        match lines[pos] {
            LineModel::Fault(_) => {},
            LineModel::Text(line) => {
                if line == "M  END"@ {
                } else if column_field(line, 3, 6) == "CHG"@ {
                    let af = column_field(line, 8, 11);
                    let cf = column_field(line, 12, 15);
                    match (parse_u16_spec(trimmed(af)), parse_i8_spec(trimmed(cf))) {
                        (Option::Some(atom), Option::Some(charge)) => {
                            if 1 <= atom && atom as int <= num_atoms {
                                let base = match charges {
                                    Option::Some(c) => c,
                                    Option::None => Seq::new(num_atoms as nat, |i: int| 0i8),
                                };
                                let updated = base.update(atom as int - 1, charge);
                                if atom as int != j + 1 {
                                    lemma_unmentioned_zero_from(
                                        lines,
                                        pos + 1,
                                        num_atoms,
                                        Option::Some(updated),
                                        j,
                                    );
                                } else {
                                    lemma_property_lines_end(
                                        lines,
                                        pos + 1,
                                        num_atoms,
                                        Option::Some(updated),
                                    );
                                    assert(mentions_atom(lines[pos], j));
                                }
                            }
                        },
                        _ => {},
                    }
                } else {
                    lemma_unmentioned_zero_from(lines, pos + 1, num_atoms, charges, j);
                }
            },
        }
    }
}

/// Atoms no charge line mentions default to zero: when the block parses
/// with a present overlay and no `CHG` line of the consumed range names
/// atom `j + 1`, entry `j` of the overlay is zero.
pub proof fn lemma_unmentioned_charge_zero(
    lines: Seq<LineModel>,
    pos: int,
    num_atoms: int,
    j: int,
)
    requires
        0 <= j < num_atoms,
    ensures
        property_lines(lines, pos, num_atoms, Option::None) matches PropsModel::Parsed {
            charges: Option::Some(out),
            pos: end,
        } ==> ((forall|i: int| pos <= i < end ==> !mentions_atom(#[trigger] lines[i], j))
            ==> out.len() == num_atoms && out[j] == 0),
{
    lemma_unmentioned_zero_from(lines, pos, num_atoms, Option::None, j);
}

/// The line is the record delimiter `"$$$$"`.
pub open spec fn is_delimiter_line(l: LineModel) -> bool {
    l matches LineModel::Text(t) && t == "$$$$"@
}

/// Resynchronization stops at the first delimiter: the position found is
/// just past the first `"$$$$"` line at or after `pos`, and lines are
/// discarded only up to there; when no delimiter is left, none was in the
/// remainder at all.
pub proof fn lemma_resync_first_delimiter(lines: Seq<LineModel>, pos: int)
    requires
        0 <= pos,
    ensures
        match resync_position(lines, pos) {
            Option::Some(q) => pos < q <= lines.len() && is_delimiter_line(lines[q - 1]) && (
            forall|i: int| pos <= i < q - 1 ==> !is_delimiter_line(#[trigger] lines[i])),
            Option::None => forall|i: int|
                pos <= i < lines.len() ==> !is_delimiter_line(#[trigger] lines[i]),
        },
    decreases lines.len() - pos,
{
    if pos < lines.len() {
        if !(lines[pos] matches LineModel::Text(t) && t == "$$$$"@) {
            lemma_resync_first_delimiter(lines, pos + 1);
        }
    }
}

/// A pull that yields an error leaves the reader resynchronizing, and one
/// that yields a record leaves it parsing.
pub proof fn lemma_error_arms_resync(lines: Seq<LineModel>, pos: int, seek: bool)
    ensures
        reader_step(lines, pos, seek).item matches Option::Some(Result::Err(_)) ==> reader_step(
            lines,
            pos,
            seek,
        ).seek,
        reader_step(lines, pos, seek).item matches Option::Some(Result::Ok(_)) ==> !reader_step(
            lines,
            pos,
            seek,
        ).seek,
{
}

/// One corrupt record costs exactly one error: after a pull yields an
/// error, the next pull parses the record beginning just past the first
/// delimiter line that follows — nothing more is skipped and nothing is
/// yielded twice — or ends the sequence when no delimiter is left.
pub proof fn lemma_resync_recovers(lines: Seq<LineModel>, pos: int, seek: bool)
    requires
        reader_step(lines, pos, seek).item matches Option::Some(Result::Err(_)),
    ensures
        reader_step(lines, pos, seek).seek,
        ({
            let step = reader_step(lines, pos, seek);
            reader_step(lines, step.pos, step.seek) == match resync_position(lines, step.pos) {
                Option::Some(q) => record_step(lines, q),
                Option::None => (StepModel {
                    item: Option::None,
                    pos: lines.len() as int,
                    seek: true,
                }),
            }
        }),
{
    lemma_error_arms_resync(lines, pos, seek);
}

/// The atom line decodes apart from its symbol: the three coordinate
/// fields are number text, but the symbol field names no element.
pub open spec fn atom_line_unknown_symbol(l: LineModel) -> bool {
    l matches LineModel::Text(t) && is_float_text(trimmed(column_field(t, 0, 10)))
        && is_float_text(trimmed(column_field(t, 10, 20))) && is_float_text(
        trimmed(column_field(t, 20, 30)),
    ) && atomic_number_of(column_field(t, 31, 34)) is None
}

/// The atom line decodes fully.
pub open spec fn atom_line_ok(l: LineModel) -> bool {
    l matches LineModel::Text(t) && is_float_text(trimmed(column_field(t, 0, 10)))
        && is_float_text(trimmed(column_field(t, 10, 20))) && is_float_text(
        trimmed(column_field(t, 20, 30)),
    ) && atomic_number_of(column_field(t, 31, 34)) is Some
}

/// The symbol field of an atom line.
pub open spec fn atom_symbol_field(l: LineModel) -> Seq<char> {
    match l {
        LineModel::Text(t) => column_field(t, 31, 34),
        LineModel::Fault(m) => m,
    }
}

/// An unknown element symbol anywhere in the atom block is a domain
/// failure for that record, never a crash: when every atom line before
/// line `bad` decodes fully and line `bad` carries a symbol that names no
/// element, the block fails with the domain error holding that symbol
/// field, and the reader resumes just after the line. Together with
/// `lemma_resync_recovers`, the records after the next delimiter stay
/// parseable.
pub proof fn lemma_unknown_symbol_fails(
    lines: Seq<LineModel>,
    pos: int,
    remaining: int,
    numbers: Seq<u8>,
    coords: Seq<CoordinateModel>,
    bad: int,
)
    requires
        pos <= bad < pos + remaining,
        bad < lines.len(),
        0 <= pos,
        forall|i: int| pos <= i < bad ==> atom_line_ok(#[trigger] lines[i]),
        atom_line_unknown_symbol(lines[bad]),
    ensures
        atom_lines(lines, pos, remaining, numbers, coords) == (AtomsModel::Failed {
            err: ErrorModel::ParseFile(atom_symbol_field(lines[bad])),
            pos: bad + 1,
        }),
    decreases remaining,
{
    if pos == bad {
    } else {
        assert(atom_line_ok(lines[pos]));
        match lines[pos] {
            LineModel::Fault(_) => {},
            LineModel::Text(line) => {
                let xf = column_field(line, 0, 10);
                let yf = column_field(line, 10, 20);
                let zf = column_field(line, 20, 30);
                let sf = column_field(line, 31, 34);
                match atomic_number_of(sf) {
                    Option::None => {},
                    Option::Some(n) => {
                        lemma_unknown_symbol_fails(
                            lines,
                            pos + 1,
                            remaining - 1,
                            numbers.push(n),
                            coords.push(
                                CoordinateModel {
                                    x: trimmed(xf),
                                    y: trimmed(yf),
                                    z: trimmed(zf),
                                },
                            ),
                            bad,
                        );
                    },
                }
            },
        }
    }
}

} // verus!
