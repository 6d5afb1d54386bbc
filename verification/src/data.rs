//! The record data model: one parsed molecule occurrence with its title,
//! optional per-atom overlays and optional bond table.

use vstd::prelude::*;

verus! {

/// One coordinate triple as decimal text, exactly the trimmed fixed-column
/// fields of the atom line. Each field is guaranteed by the parser to be
/// well-formed decimal-number text (see `float_text`), so a consumer can
/// convert it to a binary floating-point value without a further check.
pub struct CoordinateText {
    pub x: String,
    pub y: String,
    pub z: String,
}

/// The mathematical shape of a `CoordinateText`.
pub struct CoordinateModel {
    pub x: Seq<char>,
    pub y: Seq<char>,
    pub z: Seq<char>,
}

impl View for CoordinateText {
    type V = CoordinateModel;

    open spec fn view(&self) -> CoordinateModel {
        CoordinateModel { x: self.x@, y: self.y@, z: self.z@ }
    }
}

/// A bond table: three parallel sequences of equal length. `atoms1` and
/// `atoms2` hold 1-based atom indices as declared in the bond lines; they
/// are not checked against the atom count. `orders` holds the bond order as
/// a small unsigned integer, with no chemical range check.
#[derive(Debug)]
pub struct Bonds {
    pub atoms1: Vec<u32>,
    pub atoms2: Vec<u32>,
    pub orders: Vec<u8>,
}

/// The mathematical shape of a `Bonds` table.
pub struct BondsModel {
    pub atoms1: Seq<u32>,
    pub atoms2: Seq<u32>,
    pub orders: Seq<u8>,
}

impl View for Bonds {
    type V = BondsModel;

    open spec fn view(&self) -> BondsModel {
        BondsModel { atoms1: self.atoms1@, atoms2: self.atoms2@, orders: self.orders@ }
    }
}

/// A bond table without orders, reserved for aromatic bond sections; the
/// core record grammar never fills it.
#[derive(Debug)]
pub struct AromaticBonds {
    pub atoms1: Vec<u32>,
    pub atoms2: Vec<u32>,
}

/// The mathematical shape of an `AromaticBonds` table.
pub struct AromaticBondsModel {
    pub atoms1: Seq<u32>,
    pub atoms2: Seq<u32>,
}

impl View for AromaticBonds {
    type V = AromaticBondsModel;

    open spec fn view(&self) -> AromaticBondsModel {
        AromaticBondsModel { atoms1: self.atoms1@, atoms2: self.atoms2@ }
    }
}

/// One molecule. `atomic_numbers[i]` is the element of atom `i + 1` of the
/// source record (1-based externally, 0-based here). The overlays are
/// present or absent as whole sections: `atom_charges` exists exactly when
/// at least one charge property line occurred, and then has one entry per
/// atom, 0 for atoms no charge line mentioned.
pub struct Molecule {
    pub atomic_numbers: Vec<u8>,
    pub atom_charges: Option<Vec<i8>>,
    pub atom_coordinates: Option<Vec<CoordinateText>>,
    pub integer_bonds: Option<Bonds>,
    pub dative_bonds: Option<Bonds>,
    pub aromatic_bonds: Option<AromaticBonds>,
}

/// The mathematical shape of a `Molecule`.
pub struct MoleculeModel {
    pub atomic_numbers: Seq<u8>,
    pub atom_charges: Option<Seq<i8>>,
    pub atom_coordinates: Option<Seq<CoordinateModel>>,
    pub integer_bonds: Option<BondsModel>,
    pub dative_bonds: Option<BondsModel>,
    pub aromatic_bonds: Option<AromaticBondsModel>,
}

/// The view of an optional `Vec` of viewable items, as an optional sequence
/// of their views.
pub open spec fn opt_vec_view<T: View>(v: Option<Vec<T>>) -> Option<Seq<T::V>> {
    match v {
        Option::None => Option::None,
        Option::Some(items) => Option::Some(items@.map_values(|t: T| t@)),
    }
}

/// The view of an optional viewable value.
pub open spec fn opt_view<T: View>(v: Option<T>) -> Option<T::V> {
    match v {
        Option::None => Option::None,
        Option::Some(x) => Option::Some(x@),
    }
}

impl View for Molecule {
    type V = MoleculeModel;

    open spec fn view(&self) -> MoleculeModel {
        MoleculeModel {
            atomic_numbers: self.atomic_numbers@,
            atom_charges: match self.atom_charges {
                Option::None => Option::None,
                Option::Some(c) => Option::Some(c@),
            },
            atom_coordinates: opt_vec_view(self.atom_coordinates),
            integer_bonds: opt_view(self.integer_bonds),
            dative_bonds: opt_view(self.dative_bonds),
            aromatic_bonds: opt_view(self.aromatic_bonds),
        }
    }
}

/// One auxiliary key/value pair of a record's property block. The core
/// grammar materializes only the charge overlay, so the reader leaves this
/// list empty; the type is the stated extension point for a generic capture.
pub struct Property {
    pub key: String,
    pub value: String,
}

/// The mathematical shape of a `Property`.
pub struct PropertyModel {
    pub key: Seq<char>,
    pub value: Seq<char>,
}

impl View for Property {
    type V = PropertyModel;

    open spec fn view(&self) -> PropertyModel {
        PropertyModel { key: self.key@, value: self.value@ }
    }
}

/// One fully parsed record: the title line taken verbatim, the molecule,
/// and the (currently always empty) generic property list.
pub struct MolFileV2000Data {
    pub title: String,
    pub molecule: Molecule,
    pub properties: Vec<Property>,
}

/// The mathematical shape of a `MolFileV2000Data`.
pub struct RecordModel {
    pub title: Seq<char>,
    pub molecule: MoleculeModel,
    pub properties: Seq<PropertyModel>,
}

impl View for MolFileV2000Data {
    type V = RecordModel;

    open spec fn view(&self) -> RecordModel {
        RecordModel {
            title: self.title@,
            molecule: self.molecule@,
            properties: self.properties@.map_values(|p: Property| p@),
        }
    }
}

} // verus!
