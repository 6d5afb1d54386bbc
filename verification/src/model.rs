//! The mathematical model of the stream. One pull of the reader is the
//! function `reader_step` over the sequence of source lines: from a read
//! position and the resynchronization flag it determines the yielded item,
//! the next position and the next flag. The executable reader is proved to
//! return exactly what this model says.

use vstd::prelude::*;
use crate::data::BondsModel;
use crate::data::CoordinateModel;
use crate::data::MoleculeModel;
use crate::data::RecordModel;
use crate::elements::atomic_number_of;
use crate::error::ErrorModel;
use crate::float_text::is_float_text;
use crate::numbers::parse_i8_spec;
use crate::numbers::parse_u16_spec;
use crate::numbers::parse_u32_spec;
use crate::numbers::parse_u8_spec;
use crate::text::column_field;
use crate::text::trimmed;

verus! {

/// One line handed to the reader by the underlying source: either a text
/// line, or the message of an input fault met while reading it.
pub enum LineModel {
    Text(Seq<char>),
    Fault(Seq<char>),
}

/// What one pull leaves behind: the yielded item (`None` for the end of
/// the sequence), the next read position, and whether the reader is
/// resynchronizing.
pub struct StepModel {
    pub item: Option<Result<RecordModel, ErrorModel>>,
    pub pos: int,
    pub seek: bool,
}

/// The position just after the next record delimiter line `"$$$$"` at or
/// after `pos`, or `None` when the source ends first. Faulted reads are
/// passed over silently while resynchronizing.
pub open spec fn resync_position(lines: Seq<LineModel>, pos: int) -> Option<int>
    decreases lines.len() - pos,
{
    if pos < 0 || pos >= lines.len() {
        Option::None
    } else if lines[pos] matches LineModel::Text(t) && t == "$$$$"@ {
        Option::Some(pos + 1)
    } else {
        resync_position(lines, pos + 1)
    }
}

/// The outcome of an atom or bond block: the source may end inside the
/// block, one line may fail to decode, or all lines decode.
pub enum AtomsModel {
    Ended,
    Failed { err: ErrorModel, pos: int },
    Parsed { numbers: Seq<u8>, coords: Seq<CoordinateModel>, pos: int },
}

/// The atom block: `remaining` more lines, each decoding three coordinate
/// fields and the element symbol; `numbers` and `coords` accumulate the
/// atoms already read. The first failing field aborts the block with the
/// error the field decoder names.
pub open spec fn atom_lines(
    lines: Seq<LineModel>,
    pos: int,
    remaining: int,
    numbers: Seq<u8>,
    coords: Seq<CoordinateModel>,
) -> AtomsModel
    decreases remaining,
{
    if remaining <= 0 {
        AtomsModel::Parsed { numbers, coords, pos }
    } else if pos < 0 || pos >= lines.len() {
        AtomsModel::Ended
    } else {
        match lines[pos] {
            LineModel::Fault(m) => AtomsModel::Failed { err: ErrorModel::Io(m), pos: pos + 1 },
            LineModel::Text(line) => {
                let xf = column_field(line, 0, 10);
                let yf = column_field(line, 10, 20);
                let zf = column_field(line, 20, 30);
                let sf = column_field(line, 31, 34);
                if !is_float_text(trimmed(xf)) {
                    AtomsModel::Failed {
                        err: ErrorModel::ParseFloat { text: xf, line },
                        pos: pos + 1,
                    }
                } else if !is_float_text(trimmed(yf)) {
                    AtomsModel::Failed {
                        err: ErrorModel::ParseFloat { text: yf, line },
                        pos: pos + 1,
                    }
                } else if !is_float_text(trimmed(zf)) {
                    AtomsModel::Failed {
                        err: ErrorModel::ParseFloat { text: zf, line },
                        pos: pos + 1,
                    }
                } else {
                    match atomic_number_of(sf) {
                        Option::None => AtomsModel::Failed {
                            err: ErrorModel::ParseFile(sf),
                            pos: pos + 1,
                        },
                        Option::Some(n) => atom_lines(
                            lines,
                            pos + 1,
                            remaining - 1,
                            numbers.push(n),
                            coords.push(
                                CoordinateModel {
                                    x: trimmed(xf),
                                    y: trimmed(yf),
                                    z: trimmed(zf),
                                },
                            ),
                        ),
                    }
                }
            },
        }
    }
}

/// The outcome of the bond block.
pub enum BondsBlockModel {
    Ended,
    Failed { err: ErrorModel, pos: int },
    Parsed { atoms1: Seq<u32>, atoms2: Seq<u32>, orders: Seq<u8>, pos: int },
}

/// The bond block: `remaining` more lines, each decoding two 1-based atom
/// indices and a bond order.
pub open spec fn bond_lines(
    lines: Seq<LineModel>,
    pos: int,
    remaining: int,
    atoms1: Seq<u32>,
    atoms2: Seq<u32>,
    orders: Seq<u8>,
) -> BondsBlockModel
    decreases remaining,
{
    if remaining <= 0 {
        BondsBlockModel::Parsed { atoms1, atoms2, orders, pos }
    } else if pos < 0 || pos >= lines.len() {
        BondsBlockModel::Ended
    } else {
        match lines[pos] {
            LineModel::Fault(m) => BondsBlockModel::Failed {
                err: ErrorModel::Io(m),
                pos: pos + 1,
            },
            LineModel::Text(line) => {
                let f1 = column_field(line, 0, 3);
                let f2 = column_field(line, 3, 6);
                let f3 = column_field(line, 6, 9);
                match parse_u32_spec(trimmed(f1)) {
                    Option::None => BondsBlockModel::Failed {
                        err: ErrorModel::ParseInt { text: f1, line },
                        pos: pos + 1,
                    },
                    Option::Some(a1) => match parse_u32_spec(trimmed(f2)) {
                        Option::None => BondsBlockModel::Failed {
                            err: ErrorModel::ParseInt { text: f2, line },
                            pos: pos + 1,
                        },
                        Option::Some(a2) => match parse_u8_spec(trimmed(f3)) {
                            Option::None => BondsBlockModel::Failed {
                                err: ErrorModel::ParseInt { text: f3, line },
                                pos: pos + 1,
                            },
                            Option::Some(ord) => bond_lines(
                                lines,
                                pos + 1,
                                remaining - 1,
                                atoms1.push(a1),
                                atoms2.push(a2),
                                orders.push(ord),
                            ),
                        },
                    },
                }
            },
        }
    }
}

/// The outcome of the property block. The source ending inside the block
/// is no failure: the record is emitted with what was gathered.
pub enum PropsModel {
    Failed { err: ErrorModel, pos: int },
    Parsed { charges: Option<Seq<i8>>, pos: int },
}

/// The property block: lines up to the sentinel `"M  END"` or the end of
/// the source. A line whose tag field (columns 3 to 6) is `CHG` sets one
/// charge; on the first such line the overlay springs into being with one
/// zero per atom. Lines with any other tag are passed over. A charge line
/// whose atom index lies outside the atom block is a domain failure.
pub open spec fn property_lines(
    lines: Seq<LineModel>,
    pos: int,
    num_atoms: int,
    charges: Option<Seq<i8>>,
) -> PropsModel
    decreases lines.len() - pos,
{
    if pos < 0 || pos >= lines.len() {
        PropsModel::Parsed { charges, pos }
    } else {
        match lines[pos] {
            LineModel::Fault(m) => PropsModel::Failed { err: ErrorModel::Io(m), pos: pos + 1 },
            LineModel::Text(line) => {
                if line == "M  END"@ {
                    PropsModel::Parsed { charges, pos: pos + 1 }
                } else if column_field(line, 3, 6) == "CHG"@ {
                    let af = column_field(line, 8, 11);
                    let cf = column_field(line, 12, 15);
                    match parse_u16_spec(trimmed(af)) {
                        Option::None => PropsModel::Failed {
                            err: ErrorModel::ParseInt { text: af, line },
                            pos: pos + 1,
                        },
                        Option::Some(atom) => match parse_i8_spec(trimmed(cf)) {
                            Option::None => PropsModel::Failed {
                                err: ErrorModel::ParseInt { text: cf, line },
                                pos: pos + 1,
                            },
                            Option::Some(charge) => if 1 <= atom && atom as int <= num_atoms {
                                let base = match charges {
                                    Option::Some(c) => c,
                                    Option::None => Seq::new(num_atoms as nat, |i: int| 0i8),
                                };
                                property_lines(
                                    lines,
                                    pos + 1,
                                    num_atoms,
                                    Option::Some(base.update(atom as int - 1, charge)),
                                )
                            } else {
                                PropsModel::Failed {
                                    err: ErrorModel::ParseFile(af),
                                    pos: pos + 1,
                                }
                            },
                        },
                    }
                } else {
                    property_lines(lines, pos + 1, num_atoms, charges)
                }
            },
        }
    }
}

/// One record parsed from position `start`: one line dropped, the title
/// line taken verbatim, one line dropped, the counts line decoded, then
/// the atom, bond and property blocks. The source ending before any of
/// the header lines, or inside the atom or bond block, ends the whole
/// sequence silently; a decode failure yields the error and arms
/// resynchronization.
pub open spec fn record_step(lines: Seq<LineModel>, start: int) -> StepModel {
    let n = lines.len() as int;
    if start < 0 || start >= n || start + 1 >= n {
        StepModel { item: Option::None, pos: n, seek: false }
    } else {
        match lines[start + 1] {
            LineModel::Fault(m) => StepModel {
                item: Option::Some(Result::Err(ErrorModel::Io(m))),
                pos: start + 2,
                seek: true,
            },
            LineModel::Text(title) => {
                if start + 3 >= n {
                    StepModel { item: Option::None, pos: n, seek: false }
                } else {
                    match lines[start + 3] {
                        LineModel::Fault(m) => StepModel {
                            item: Option::Some(Result::Err(ErrorModel::Io(m))),
                            pos: start + 4,
                            seek: true,
                        },
                        LineModel::Text(counts) => record_body(lines, start, title, counts),
                    }
                }
            },
        }
    }
}

/// The rest of `record_step` once the counts line is at hand.
pub open spec fn record_body(
    lines: Seq<LineModel>,
    start: int,
    title: Seq<char>,
    counts: Seq<char>,
) -> StepModel {
    let n = lines.len() as int;
    let naf = column_field(counts, 0, 3);
    let nbf = column_field(counts, 3, 6);
    match parse_u16_spec(trimmed(naf)) {
        Option::None => StepModel {
            item: Option::Some(Result::Err(ErrorModel::ParseInt { text: naf, line: counts })),
            pos: start + 4,
            seek: true,
        },
        Option::Some(na) => match parse_u16_spec(trimmed(nbf)) {
            Option::None => StepModel {
                item: Option::Some(Result::Err(ErrorModel::ParseInt { text: nbf, line: counts })),
                pos: start + 4,
                seek: true,
            },
            Option::Some(nb) => match atom_lines(
                lines,
                start + 4,
                na as int,
                Seq::empty(),
                Seq::empty(),
            ) {
                AtomsModel::Ended => StepModel { item: Option::None, pos: n, seek: false },
                AtomsModel::Failed { err, pos } => StepModel {
                    item: Option::Some(Result::Err(err)),
                    pos,
                    seek: true,
                },
                AtomsModel::Parsed { numbers, coords, pos: apos } => match bond_lines(
                    lines,
                    apos,
                    nb as int,
                    Seq::empty(),
                    Seq::empty(),
                    Seq::empty(),
                ) {
                    BondsBlockModel::Ended => StepModel {
                        item: Option::None,
                        pos: n,
                        seek: false,
                    },
                    BondsBlockModel::Failed { err, pos } => StepModel {
                        item: Option::Some(Result::Err(err)),
                        pos,
                        seek: true,
                    },
                    BondsBlockModel::Parsed { atoms1, atoms2, orders, pos: bpos } => match
                    property_lines(lines, bpos, na as int, Option::None) {
                        PropsModel::Failed { err, pos } => StepModel {
                            item: Option::Some(Result::Err(err)),
                            pos,
                            seek: true,
                        },
                        PropsModel::Parsed { charges, pos: ppos } => StepModel {
                            item: Option::Some(
                                Result::Ok(
                                    RecordModel {
                                        title,
                                        molecule: MoleculeModel {
                                            atomic_numbers: numbers,
                                            atom_charges: charges,
                                            atom_coordinates: Option::Some(coords),
                                            integer_bonds: Option::Some(
                                                BondsModel { atoms1, atoms2, orders },
                                            ),
                                            dative_bonds: Option::None,
                                            aromatic_bonds: Option::None,
                                        },
                                        properties: Seq::empty(),
                                    },
                                ),
                            ),
                            pos: ppos,
                            seek: false,
                        },
                    },
                },
            },
        },
    }
}

/// What one pull of the reader yields from state `(pos, seek)`: while
/// resynchronizing, lines are discarded up to the next `"$$$$"` delimiter
/// before a record is parsed; if none is left, the sequence has ended.
pub open spec fn reader_step(lines: Seq<LineModel>, pos: int, seek: bool) -> StepModel {
    if seek {
        match resync_position(lines, pos) {
            Option::None => StepModel {
                item: Option::None,
                pos: lines.len() as int,
                seek: true,
            },
            Option::Some(p) => record_step(lines, p),
        }
    } else {
        record_step(lines, pos)
    }
}

} // verus!
