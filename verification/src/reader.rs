//! The record reader: a pull-based sequence of parsed records over a
//! finite sequence of source lines. Every pull is proved to yield exactly
//! what the model in `model` says for the reader's current state.

use vstd::prelude::*;
use crate::data::Bonds;
use crate::data::CoordinateModel;
use crate::data::CoordinateText;
use crate::data::MolFileV2000Data;
use crate::data::Molecule;
use crate::data::RecordModel;
use crate::elements::atomic_number_from_str;
use crate::error::Error;
use crate::error::ErrorModel;
use crate::float_text::is_float_field;
use crate::model::AtomsModel;
use crate::model::BondsBlockModel;
use crate::model::LineModel;
use crate::model::PropsModel;
use crate::model::StepModel;
use crate::model::atom_lines;
use crate::model::bond_lines;
use crate::model::property_lines;
use crate::model::reader_step;
use crate::model::record_step;
use crate::model::resync_position;
use crate::numbers::parse_i8_field;
use crate::numbers::parse_u16_field;
use crate::numbers::parse_u32_field;
use crate::numbers::parse_u8_field;
use crate::text::field;
use crate::text::str_eq;
use crate::text::trim;

verus! {

/// One line from the underlying source, as the reader receives it: the
/// text of the line, or the message of the input fault met reading it.
pub enum SourceLine {
    Text(String),
    Fault(String),
}

impl View for SourceLine {
    type V = LineModel;

    open spec fn view(&self) -> LineModel {
        match self {
            SourceLine::Text(s) => LineModel::Text(s@),
            SourceLine::Fault(m) => LineModel::Fault(m@),
        }
    }
}

/// The model's picture of a line sequence.
pub open spec fn source_of(lines: Seq<SourceLine>) -> Seq<LineModel> {
    lines.map_values(|l: SourceLine| l@)
}

/// The model's picture of one yielded item.
pub open spec fn item_model(r: Option<Result<MolFileV2000Data, Error>>) -> Option<
    Result<RecordModel, ErrorModel>,
> {
    match r {
        Option::None => Option::None,
        Option::Some(Result::Ok(d)) => Option::Some(Result::Ok(d@)),
        Option::Some(Result::Err(e)) => Option::Some(Result::Err(e@)),
    }
}

/// The model's picture of the charge overlay under construction.
pub open spec fn charges_model(c: Option<Vec<i8>>) -> Option<Seq<i8>> {
    match c {
        Option::None => Option::None,
        Option::Some(v) => Option::Some(v@),
    }
}

/// Finds the position just after the next `"$$$$"` delimiter line.
#[verifier::loop_isolation(false)]
fn find_delimiter(lines: &Vec<SourceLine>, start: usize) -> (r: Option<usize>)
    requires
        start <= lines@.len(),
    ensures
        match r {
            Option::Some(p) => resync_position(source_of(lines@), start as int) == Option::Some(
                p as int,
            ) && p <= lines@.len(),
            Option::None => resync_position(source_of(lines@), start as int) is None,
        },
{
    let n = lines.len();
    let mut i = start;
    while i < n
        invariant
            start <= i <= n,
            resync_position(source_of(lines@), start as int) == resync_position(
                source_of(lines@),
                i as int,
            ),
        decreases n - i,
    {
        match &lines[i] {
            SourceLine::Text(t) => {
                if str_eq(t.as_str(), "$$$$") {
                    return Option::Some(i + 1);
                }
            },
            SourceLine::Fault(_) => {},
        }
        i = i + 1;
    }
    Option::None
}

/// The outcome of reading the atom block.
enum AtomBlockOutcome {
    Ended,
    Failed { err: Error, pos: usize },
    Parsed { numbers: Vec<u8>, coords: Vec<CoordinateText>, pos: usize },
}

/// Reads `count` atom lines from `start`: three coordinate fields checked
/// as number text and kept trimmed, and the element symbol resolved.
#[verifier::loop_isolation(false)]
fn read_atom_block(lines: &Vec<SourceLine>, start: usize, count: u16) -> (r: AtomBlockOutcome)
    requires
        start <= lines@.len(),
    ensures
        ({
            let m = atom_lines(
                source_of(lines@),
                start as int,
                count as int,
                Seq::empty(),
                Seq::empty(),
            );
            match r {
                AtomBlockOutcome::Ended => m == AtomsModel::Ended,
                AtomBlockOutcome::Failed { err, pos } => m == (AtomsModel::Failed {
                    err: err@,
                    pos: pos as int,
                }) && pos <= lines@.len(),
                AtomBlockOutcome::Parsed { numbers, coords, pos } => m == (AtomsModel::Parsed {
                    numbers: numbers@,
                    coords: coords@.map_values(|c: CoordinateText| c@),
                    pos: pos as int,
                }) && pos <= lines@.len(),
            }
        }),
{
    let ghost src = source_of(lines@);
    let n = lines.len();
    let mut numbers: Vec<u8> = Vec::new();
    let mut coords: Vec<CoordinateText> = Vec::new();
    proof {
        assert(coords@.map_values(|c: CoordinateText| c@) =~= Seq::<CoordinateModel>::empty());
    }
    let mut pos = start;
    let mut i: u16 = 0;
    while i < count
        invariant
            start <= pos <= n,
            i <= count,
            atom_lines(src, start as int, count as int, Seq::empty(), Seq::empty()) == atom_lines(
                src,
                pos as int,
                count as int - i as int,
                numbers@,
                coords@.map_values(|c: CoordinateText| c@),
            ),
        decreases count - i,
    {
        if pos >= n {
            return AtomBlockOutcome::Ended;
        }
        match &lines[pos] {
            SourceLine::Fault(m) => {
                return AtomBlockOutcome::Failed { err: Error::Io(m.clone()), pos: pos + 1 };
            },
            SourceLine::Text(line) => {
                let l = line.as_str();
                let xf = field(l, 0, 10);
                let xt = trim(xf);
                if !is_float_field(xt) {
                    return AtomBlockOutcome::Failed {
                        err: Error::ParseFloat { text: xf.to_owned(), line: line.clone() },
                        pos: pos + 1,
                    };
                }
                let yf = field(l, 10, 20);
                let yt = trim(yf);
                if !is_float_field(yt) {
                    return AtomBlockOutcome::Failed {
                        err: Error::ParseFloat { text: yf.to_owned(), line: line.clone() },
                        pos: pos + 1,
                    };
                }
                let zf = field(l, 20, 30);
                let zt = trim(zf);
                if !is_float_field(zt) {
                    return AtomBlockOutcome::Failed {
                        err: Error::ParseFloat { text: zf.to_owned(), line: line.clone() },
                        pos: pos + 1,
                    };
                }
                let sf = field(l, 31, 34);
                match atomic_number_from_str(sf) {
                    Result::Err(e) => {
                        return AtomBlockOutcome::Failed { err: e, pos: pos + 1 };
                    },
                    Result::Ok(num) => {
                        let ghost coords_before = coords@.map_values(|c: CoordinateText| c@);
                        numbers.push(num);
                        coords.push(
                            CoordinateText { x: xt.to_owned(), y: yt.to_owned(), z: zt.to_owned() },
                        );
                        proof {
                            assert(coords@.map_values(|c: CoordinateText| c@) =~= coords_before.push(
                                coords@.last()@,
                            ));
                        }
                        pos = pos + 1;
                        i = i + 1;
                    },
                }
            },
        }
    }
    AtomBlockOutcome::Parsed { numbers, coords, pos }
}

/// The outcome of reading the bond block.
enum BondBlockOutcome {
    Ended,
    Failed { err: Error, pos: usize },
    Parsed { atoms1: Vec<u32>, atoms2: Vec<u32>, orders: Vec<u8>, pos: usize },
}

/// Reads `count` bond lines from `start`: two 1-based atom indices and
/// the bond order, each a fixed-column unsigned integer field.
#[verifier::loop_isolation(false)]
fn read_bond_block(lines: &Vec<SourceLine>, start: usize, count: u16) -> (r: BondBlockOutcome)
    requires
        start <= lines@.len(),
    ensures
        ({
            let m = bond_lines(
                source_of(lines@),
                start as int,
                count as int,
                Seq::empty(),
                Seq::empty(),
                Seq::empty(),
            );
            match r {
                BondBlockOutcome::Ended => m == BondsBlockModel::Ended,
                BondBlockOutcome::Failed { err, pos } => m == (BondsBlockModel::Failed {
                    err: err@,
                    pos: pos as int,
                }) && pos <= lines@.len(),
                BondBlockOutcome::Parsed { atoms1, atoms2, orders, pos } => m == (
                BondsBlockModel::Parsed {
                    atoms1: atoms1@,
                    atoms2: atoms2@,
                    orders: orders@,
                    pos: pos as int,
                }) && pos <= lines@.len(),
            }
        }),
{
    let ghost src = source_of(lines@);
    let n = lines.len();
    let mut atoms1: Vec<u32> = Vec::new();
    let mut atoms2: Vec<u32> = Vec::new();
    let mut orders: Vec<u8> = Vec::new();
    let mut pos = start;
    let mut i: u16 = 0;
    while i < count
        invariant
            start <= pos <= n,
            i <= count,
            bond_lines(
                src,
                start as int,
                count as int,
                Seq::empty(),
                Seq::empty(),
                Seq::empty(),
            ) == bond_lines(
                src,
                pos as int,
                count as int - i as int,
                atoms1@,
                atoms2@,
                orders@,
            ),
        decreases count - i,
    {
        if pos >= n {
            return BondBlockOutcome::Ended;
        }
        match &lines[pos] {
            SourceLine::Fault(m) => {
                return BondBlockOutcome::Failed { err: Error::Io(m.clone()), pos: pos + 1 };
            },
            SourceLine::Text(line) => {
                let l = line.as_str();
                let f1 = field(l, 0, 3);
                let a1 = match parse_u32_field(trim(f1)) {
                    Option::None => {
                        return BondBlockOutcome::Failed {
                            err: Error::ParseInt { text: f1.to_owned(), line: line.clone() },
                            pos: pos + 1,
                        };
                    },
                    Option::Some(v) => v,
                };
                let f2 = field(l, 3, 6);
                let a2 = match parse_u32_field(trim(f2)) {
                    Option::None => {
                        return BondBlockOutcome::Failed {
                            err: Error::ParseInt { text: f2.to_owned(), line: line.clone() },
                            pos: pos + 1,
                        };
                    },
                    Option::Some(v) => v,
                };
                let f3 = field(l, 6, 9);
                let ord = match parse_u8_field(trim(f3)) {
                    Option::None => {
                        return BondBlockOutcome::Failed {
                            err: Error::ParseInt { text: f3.to_owned(), line: line.clone() },
                            pos: pos + 1,
                        };
                    },
                    Option::Some(v) => v,
                };
                atoms1.push(a1);
                atoms2.push(a2);
                orders.push(ord);
                pos = pos + 1;
                i = i + 1;
            },
        }
    }
    BondBlockOutcome::Parsed { atoms1, atoms2, orders, pos }
}

/// A charge overlay of `n` zeros, one per atom.
#[verifier::loop_isolation(false)]
fn zero_charges(n: u16) -> (v: Vec<i8>)
    ensures
        v@ == Seq::new(n as nat, |i: int| 0i8),
{
    let mut v: Vec<i8> = Vec::new();
    let mut k: usize = 0;
    while k < n as usize
        invariant
            k == v@.len(),
            k <= n as usize,
            forall|i: int| 0 <= i < k ==> v@[i] == 0i8,
        decreases n as usize - k,
    {
        v.push(0);
        k = k + 1;
    }
    proof {
        assert(v@ =~= Seq::new(n as nat, |i: int| 0i8));
    }
    v
}

/// The outcome of reading the property block.
enum PropertyBlockOutcome {
    Failed { err: Error, pos: usize },
    Parsed { charges: Option<Vec<i8>>, pos: usize },
}

/// Reads property lines from `start` up to the sentinel `"M  END"` or the
/// end of the source, gathering the charge overlay from `CHG` lines.
#[verifier::loop_isolation(false)]
fn read_property_block(lines: &Vec<SourceLine>, start: usize, num_atoms: u16) -> (r:
    PropertyBlockOutcome)
    requires
        start <= lines@.len(),
    ensures
        ({
            let m = property_lines(source_of(lines@), start as int, num_atoms as int, Option::None);
            match r {
                PropertyBlockOutcome::Failed { err, pos } => m == (PropsModel::Failed {
                    err: err@,
                    pos: pos as int,
                }) && pos <= lines@.len(),
                PropertyBlockOutcome::Parsed { charges, pos } => m == (PropsModel::Parsed {
                    charges: charges_model(charges),
                    pos: pos as int,
                }) && pos <= lines@.len(),
            }
        }),
{
    let ghost src = source_of(lines@);
    let n = lines.len();
    let mut charges: Option<Vec<i8>> = Option::None;
    let mut pos = start;
    while pos < n
        invariant
            start <= pos <= n,
            property_lines(src, start as int, num_atoms as int, Option::None) == property_lines(
                src,
                pos as int,
                num_atoms as int,
                charges_model(charges),
            ),
            charges matches Option::Some(v) ==> v@.len() == num_atoms as int,
        decreases n - pos,
    {
        match &lines[pos] {
            SourceLine::Fault(m) => {
                return PropertyBlockOutcome::Failed { err: Error::Io(m.clone()), pos: pos + 1 };
            },
            SourceLine::Text(line) => {
                let l = line.as_str();
                if str_eq(l, "M  END") {
                    return PropertyBlockOutcome::Parsed { charges, pos: pos + 1 };
                }
                if str_eq(field(l, 3, 6), "CHG") {
                    let af = field(l, 8, 11);
                    let atom = match parse_u16_field(trim(af)) {
                        Option::None => {
                            return PropertyBlockOutcome::Failed {
                                err: Error::ParseInt { text: af.to_owned(), line: line.clone() },
                                pos: pos + 1,
                            };
                        },
                        Option::Some(v) => v,
                    };
                    let cf = field(l, 12, 15);
                    let charge = match parse_i8_field(trim(cf)) {
                        Option::None => {
                            return PropertyBlockOutcome::Failed {
                                err: Error::ParseInt { text: cf.to_owned(), line: line.clone() },
                                pos: pos + 1,
                            };
                        },
                        Option::Some(v) => v,
                    };
                    if 1 <= atom && atom <= num_atoms {
                        let mut base: Vec<i8> = match charges {
                            Option::Some(v) => v,
                            Option::None => zero_charges(num_atoms),
                        };
                        base[(atom - 1) as usize] = charge;
                        charges = Option::Some(base);
                    } else {
                        return PropertyBlockOutcome::Failed {
                            err: Error::ParseFile(af.to_owned()),
                            pos: pos + 1,
                        };
                    }
                }
                pos = pos + 1;
            },
        }
    }
    PropertyBlockOutcome::Parsed { charges, pos }
}

/// Reads one record beginning at `start`, as `record_step` describes it:
/// the yielded item, the next position, and whether resynchronization is
/// armed.
#[verifier::loop_isolation(false)]
fn read_record(lines: &Vec<SourceLine>, start: usize) -> (r: (
    Option<Result<MolFileV2000Data, Error>>,
    usize,
    bool,
))
    requires
        start <= lines@.len(),
    ensures
        ({
            let step = record_step(source_of(lines@), start as int);
            &&& step.item == item_model(r.0)
            &&& step.pos == r.1 as int
            &&& step.seek == r.2
            &&& r.1 <= lines@.len()
        }),
{
    let n = lines.len();
    if start >= n {
        return (Option::None, n, false);
    }
    if start + 1 >= n {
        return (Option::None, n, false);
    }
    let title: String = match &lines[start + 1] {
        SourceLine::Fault(m) => {
            return (Option::Some(Result::Err(Error::Io(m.clone()))), start + 2, true);
        },
        SourceLine::Text(t) => t.clone(),
    };
    if n - start <= 3 {
        return (Option::None, n, false);
    }
    let counts: String = match &lines[start + 3] {
        SourceLine::Fault(m) => {
            return (Option::Some(Result::Err(Error::Io(m.clone()))), start + 4, true);
        },
        SourceLine::Text(t) => t.clone(),
    };
    let naf = field(counts.as_str(), 0, 3);
    let num_atoms = match parse_u16_field(trim(naf)) {
        Option::None => {
            return (
                Option::Some(
                    Result::Err(Error::ParseInt { text: naf.to_owned(), line: counts.clone() }),
                ),
                start + 4,
                true,
            );
        },
        Option::Some(v) => v,
    };
    let nbf = field(counts.as_str(), 3, 6);
    let num_bonds = match parse_u16_field(trim(nbf)) {
        Option::None => {
            return (
                Option::Some(
                    Result::Err(Error::ParseInt { text: nbf.to_owned(), line: counts.clone() }),
                ),
                start + 4,
                true,
            );
        },
        Option::Some(v) => v,
    };
    match read_atom_block(lines, start + 4, num_atoms) {
        AtomBlockOutcome::Ended => (Option::None, n, false),
        AtomBlockOutcome::Failed { err, pos } => (Option::Some(Result::Err(err)), pos, true),
        AtomBlockOutcome::Parsed { numbers, coords, pos } => {
            match read_bond_block(lines, pos, num_bonds) {
                BondBlockOutcome::Ended => (Option::None, n, false),
                BondBlockOutcome::Failed { err, pos } => (
                    Option::Some(Result::Err(err)),
                    pos,
                    true,
                ),
                BondBlockOutcome::Parsed { atoms1, atoms2, orders, pos } => {
                    match read_property_block(lines, pos, num_atoms) {
                        PropertyBlockOutcome::Failed { err, pos } => (
                            Option::Some(Result::Err(err)),
                            pos,
                            true,
                        ),
                        PropertyBlockOutcome::Parsed { charges, pos } => {
                            let data = MolFileV2000Data {
                                title,
                                molecule: Molecule {
                                    atomic_numbers: numbers,
                                    atom_charges: charges,
                                    atom_coordinates: Option::Some(coords),
                                    integer_bonds: Option::Some(
                                        Bonds { atoms1, atoms2, orders },
                                    ),
                                    dative_bonds: Option::None,
                                    aromatic_bonds: Option::None,
                                },
                                properties: Vec::new(),
                            };
                            proof {
                                assert(data@.properties =~= Seq::<crate::data::PropertyModel>::empty());
                            }
                            (Option::Some(Result::Ok(data)), pos, false)
                        },
                    }
                },
            }
        },
    }
}

/// The streaming reader: a finite, forward-only sequence of records over
/// its own source lines. The only state carried from one pull to the next
/// is the read position and the resynchronization flag.
pub struct ReadMolFileV2000 {
    lines: Vec<SourceLine>,
    pos: usize,
    seek_block_end: bool,
}

impl ReadMolFileV2000 {
    /// The lines of the underlying source, as the model sees them.
    pub closed spec fn source(&self) -> Seq<LineModel> {
        source_of(self.lines@)
    }

    /// How many lines have been consumed.
    pub closed spec fn position(&self) -> int {
        self.pos as int
    }

    /// Whether the reader is discarding lines after an error, looking for
    /// the next `"$$$$"` delimiter.
    pub closed spec fn resynchronizing(&self) -> bool {
        self.seek_block_end
    }

    /// A fresh reader over the given source lines, at the start, in
    /// normal parsing mode.
    pub fn new(lines: Vec<SourceLine>) -> (r: ReadMolFileV2000)
        ensures
            r.source() == source_of(lines@),
            r.position() == 0,
            !r.resynchronizing(),
    {
        ReadMolFileV2000 { lines, pos: 0, seek_block_end: false }
    }

    /// Produces the next element of the sequence: a parsed record, the
    /// error that spoiled one record, or `None` at the end of the source.
    /// Exactly as `reader_step` states it: after an error the reader
    /// first discards lines up to the next `"$$$$"` delimiter, so one
    /// corrupt record costs one `Err` and nothing else.
    pub fn next(&mut self) -> (r: Option<Result<MolFileV2000Data, Error>>)
        ensures
            ({
                let step = reader_step(
                    old(self).source(),
                    old(self).position(),
                    old(self).resynchronizing(),
                );
                &&& final(self).source() == old(self).source()
                &&& final(self).position() == step.pos
                &&& final(self).resynchronizing() == step.seek
                &&& item_model(r) == step.item
            }),
    {
        let n = self.lines.len();
        let mut pos = self.pos;
        if pos > n {
            pos = n;
        }
        if self.seek_block_end {
            match find_delimiter(&self.lines, pos) {
                Option::None => {
                    proof {
                        assert(resync_position(self.source(), self.pos as int) is None);
                    }
                    self.pos = n;
                    return Option::None;
                },
                Option::Some(p) => {
                    pos = p;
                },
            }
        }
        let (item, npos, nseek) = read_record(&self.lines, pos);
        self.pos = npos;
        self.seek_block_end = nseek;
        item
    }
}

} // verus!
