//! The atomic symbol table: the total mapping from every standard one- or
//! two-letter element symbol to its atomic number, 1 through 118. Lookup
//! trims the field first; text naming no element is a domain failure, not
//! a panic.

use vstd::prelude::*;
use crate::error::Error;
use crate::error::ErrorModel;
use crate::text::str_eq;
use crate::text::trim;
use crate::text::trimmed;

verus! {

/// The atomic number named by an element symbol after trimming, `H` as 1
/// through `Og` as 118; `None` for text that names no element.
pub open spec fn atomic_number_of(sym: Seq<char>) -> Option<u8> {
    let t = trimmed(sym);
    if t == "H"@ {
        Option::Some(1u8)
    } else if t == "He"@ {
        Option::Some(2u8)
    } else if t == "Li"@ {
        Option::Some(3u8)
    } else if t == "Be"@ {
        Option::Some(4u8)
    } else if t == "B"@ {
        Option::Some(5u8)
    } else if t == "C"@ {
        Option::Some(6u8)
    } else if t == "N"@ {
        Option::Some(7u8)
    } else if t == "O"@ {
        Option::Some(8u8)
    } else if t == "F"@ {
        Option::Some(9u8)
    } else if t == "Ne"@ {
        Option::Some(10u8)
    } else if t == "Na"@ {
        Option::Some(11u8)
    } else if t == "Mg"@ {
        Option::Some(12u8)
    } else if t == "Al"@ {
        Option::Some(13u8)
    } else if t == "Si"@ {
        Option::Some(14u8)
    } else if t == "P"@ {
        Option::Some(15u8)
    } else if t == "S"@ {
        Option::Some(16u8)
    } else if t == "Cl"@ {
        Option::Some(17u8)
    } else if t == "Ar"@ {
        Option::Some(18u8)
    } else if t == "K"@ {
        Option::Some(19u8)
    } else if t == "Ca"@ {
        Option::Some(20u8)
    } else if t == "Sc"@ {
        Option::Some(21u8)
    } else if t == "Ti"@ {
        Option::Some(22u8)
    } else if t == "V"@ {
        Option::Some(23u8)
    } else if t == "Cr"@ {
        Option::Some(24u8)
    } else if t == "Mn"@ {
        Option::Some(25u8)
    } else if t == "Fe"@ {
        Option::Some(26u8)
    } else if t == "Co"@ {
        Option::Some(27u8)
    } else if t == "Ni"@ {
        Option::Some(28u8)
    } else if t == "Cu"@ {
        Option::Some(29u8)
    } else if t == "Zn"@ {
        Option::Some(30u8)
    } else if t == "Ga"@ {
        Option::Some(31u8)
    } else if t == "Ge"@ {
        Option::Some(32u8)
    } else if t == "As"@ {
        Option::Some(33u8)
    } else if t == "Se"@ {
        Option::Some(34u8)
    } else if t == "Br"@ {
        Option::Some(35u8)
    } else if t == "Kr"@ {
        Option::Some(36u8)
    } else if t == "Rb"@ {
        Option::Some(37u8)
    } else if t == "Sr"@ {
        Option::Some(38u8)
    } else if t == "Y"@ {
        Option::Some(39u8)
    } else if t == "Zr"@ {
        Option::Some(40u8)
    } else if t == "Nb"@ {
        Option::Some(41u8)
    } else if t == "Mo"@ {
        Option::Some(42u8)
    } else if t == "Tc"@ {
        Option::Some(43u8)
    } else if t == "Ru"@ {
        Option::Some(44u8)
    } else if t == "Rh"@ {
        Option::Some(45u8)
    } else if t == "Pd"@ {
        Option::Some(46u8)
    } else if t == "Ag"@ {
        Option::Some(47u8)
    } else if t == "Cd"@ {
        Option::Some(48u8)
    } else if t == "In"@ {
        Option::Some(49u8)
    } else if t == "Sn"@ {
        Option::Some(50u8)
    } else if t == "Sb"@ {
        Option::Some(51u8)
    } else if t == "Te"@ {
        Option::Some(52u8)
    } else if t == "I"@ {
        Option::Some(53u8)
    } else if t == "Xe"@ {
        Option::Some(54u8)
    } else if t == "Cs"@ {
        Option::Some(55u8)
    } else if t == "Ba"@ {
        Option::Some(56u8)
    } else if t == "La"@ {
        Option::Some(57u8)
    } else if t == "Ce"@ {
        Option::Some(58u8)
    } else if t == "Pr"@ {
        Option::Some(59u8)
    } else if t == "Nd"@ {
        Option::Some(60u8)
    } else if t == "Pm"@ {
        Option::Some(61u8)
    } else if t == "Sm"@ {
        Option::Some(62u8)
    } else if t == "Eu"@ {
        Option::Some(63u8)
    } else if t == "Gd"@ {
        Option::Some(64u8)
    } else if t == "Tb"@ {
        Option::Some(65u8)
    } else if t == "Dy"@ {
        Option::Some(66u8)
    } else if t == "Ho"@ {
        Option::Some(67u8)
    } else if t == "Er"@ {
        Option::Some(68u8)
    } else if t == "Tm"@ {
        Option::Some(69u8)
    } else if t == "Yb"@ {
        Option::Some(70u8)
    } else if t == "Lu"@ {
        Option::Some(71u8)
    } else if t == "Hf"@ {
        Option::Some(72u8)
    } else if t == "Ta"@ {
        Option::Some(73u8)
    } else if t == "W"@ {
        Option::Some(74u8)
    } else if t == "Re"@ {
        Option::Some(75u8)
    } else if t == "Os"@ {
        Option::Some(76u8)
    } else if t == "Ir"@ {
        Option::Some(77u8)
    } else if t == "Pt"@ {
        Option::Some(78u8)
    } else if t == "Au"@ {
        Option::Some(79u8)
    } else if t == "Hg"@ {
        Option::Some(80u8)
    } else if t == "Tl"@ {
        Option::Some(81u8)
    } else if t == "Pb"@ {
        Option::Some(82u8)
    } else if t == "Bi"@ {
        Option::Some(83u8)
    } else if t == "Po"@ {
        Option::Some(84u8)
    } else if t == "At"@ {
        Option::Some(85u8)
    } else if t == "Rn"@ {
        Option::Some(86u8)
    } else if t == "Fr"@ {
        Option::Some(87u8)
    } else if t == "Ra"@ {
        Option::Some(88u8)
    } else if t == "Ac"@ {
        Option::Some(89u8)
    } else if t == "Th"@ {
        Option::Some(90u8)
    } else if t == "Pa"@ {
        Option::Some(91u8)
    } else if t == "U"@ {
        Option::Some(92u8)
    } else if t == "Np"@ {
        Option::Some(93u8)
    } else if t == "Pu"@ {
        Option::Some(94u8)
    } else if t == "Am"@ {
        Option::Some(95u8)
    } else if t == "Cm"@ {
        Option::Some(96u8)
    } else if t == "Bk"@ {
        Option::Some(97u8)
    } else if t == "Cf"@ {
        Option::Some(98u8)
    } else if t == "Es"@ {
        Option::Some(99u8)
    } else if t == "Fm"@ {
        Option::Some(100u8)
    } else if t == "Md"@ {
        Option::Some(101u8)
    } else if t == "No"@ {
        Option::Some(102u8)
    } else if t == "Lr"@ {
        Option::Some(103u8)
    } else if t == "Rf"@ {
        Option::Some(104u8)
    } else if t == "Db"@ {
        Option::Some(105u8)
    } else if t == "Sg"@ {
        Option::Some(106u8)
    } else if t == "Bh"@ {
        Option::Some(107u8)
    } else if t == "Hs"@ {
        Option::Some(108u8)
    } else if t == "Mt"@ {
        Option::Some(109u8)
    } else if t == "Ds"@ {
        Option::Some(110u8)
    } else if t == "Rg"@ {
        Option::Some(111u8)
    } else if t == "Cn"@ {
        Option::Some(112u8)
    } else if t == "Nh"@ {
        Option::Some(113u8)
    } else if t == "Fl"@ {
        Option::Some(114u8)
    } else if t == "Mc"@ {
        Option::Some(115u8)
    } else if t == "Lv"@ {
        Option::Some(116u8)
    } else if t == "Ts"@ {
        Option::Some(117u8)
    } else if t == "Og"@ {
        Option::Some(118u8)
    } else {
        Option::None
    }
}

/// Resolves a (possibly padded) element symbol field to its atomic number.
/// Text that names no element is a domain failure carrying the field
/// verbatim.
#[verifier::rlimit(60)]
pub fn atomic_number_from_str(s: &str) -> (r: Result<u8, Error>)
    ensures
        match r {
            Result::Ok(n) => atomic_number_of(s@) == Option::Some(n),
            Result::Err(e) => atomic_number_of(s@) is None && e@ == ErrorModel::ParseFile(s@),
        },
{
    let t = trim(s);
    if str_eq(t, "H") {
        Result::Ok(1)
    } else if str_eq(t, "He") {
        Result::Ok(2)
    } else if str_eq(t, "Li") {
        Result::Ok(3)
    } else if str_eq(t, "Be") {
        Result::Ok(4)
    } else if str_eq(t, "B") {
        Result::Ok(5)
    } else if str_eq(t, "C") {
        Result::Ok(6)
    } else if str_eq(t, "N") {
        Result::Ok(7)
    } else if str_eq(t, "O") {
        Result::Ok(8)
    } else if str_eq(t, "F") {
        Result::Ok(9)
    } else if str_eq(t, "Ne") {
        Result::Ok(10)
    } else if str_eq(t, "Na") {
        Result::Ok(11)
    } else if str_eq(t, "Mg") {
        Result::Ok(12)
    } else if str_eq(t, "Al") {
        Result::Ok(13)
    } else if str_eq(t, "Si") {
        Result::Ok(14)
    } else if str_eq(t, "P") {
        Result::Ok(15)
    } else if str_eq(t, "S") {
        Result::Ok(16)
    } else if str_eq(t, "Cl") {
        Result::Ok(17)
    } else if str_eq(t, "Ar") {
        Result::Ok(18)
    } else if str_eq(t, "K") {
        Result::Ok(19)
    } else if str_eq(t, "Ca") {
        Result::Ok(20)
    } else if str_eq(t, "Sc") {
        Result::Ok(21)
    } else if str_eq(t, "Ti") {
        Result::Ok(22)
    } else if str_eq(t, "V") {
        Result::Ok(23)
    } else if str_eq(t, "Cr") {
        Result::Ok(24)
    } else if str_eq(t, "Mn") {
        Result::Ok(25)
    } else if str_eq(t, "Fe") {
        Result::Ok(26)
    } else if str_eq(t, "Co") {
        Result::Ok(27)
    } else if str_eq(t, "Ni") {
        Result::Ok(28)
    } else if str_eq(t, "Cu") {
        Result::Ok(29)
    } else if str_eq(t, "Zn") {
        Result::Ok(30)
    } else if str_eq(t, "Ga") {
        Result::Ok(31)
    } else if str_eq(t, "Ge") {
        Result::Ok(32)
    } else if str_eq(t, "As") {
        Result::Ok(33)
    } else if str_eq(t, "Se") {
        Result::Ok(34)
    } else if str_eq(t, "Br") {
        Result::Ok(35)
    } else if str_eq(t, "Kr") {
        Result::Ok(36)
    } else if str_eq(t, "Rb") {
        Result::Ok(37)
    } else if str_eq(t, "Sr") {
        Result::Ok(38)
    } else if str_eq(t, "Y") {
        Result::Ok(39)
    } else if str_eq(t, "Zr") {
        Result::Ok(40)
    } else if str_eq(t, "Nb") {
        Result::Ok(41)
    } else if str_eq(t, "Mo") {
        Result::Ok(42)
    } else if str_eq(t, "Tc") {
        Result::Ok(43)
    } else if str_eq(t, "Ru") {
        Result::Ok(44)
    } else if str_eq(t, "Rh") {
        Result::Ok(45)
    } else if str_eq(t, "Pd") {
        Result::Ok(46)
    } else if str_eq(t, "Ag") {
        Result::Ok(47)
    } else if str_eq(t, "Cd") {
        Result::Ok(48)
    } else if str_eq(t, "In") {
        Result::Ok(49)
    } else if str_eq(t, "Sn") {
        Result::Ok(50)
    } else if str_eq(t, "Sb") {
        Result::Ok(51)
    } else if str_eq(t, "Te") {
        Result::Ok(52)
    } else if str_eq(t, "I") {
        Result::Ok(53)
    } else if str_eq(t, "Xe") {
        Result::Ok(54)
    } else if str_eq(t, "Cs") {
        Result::Ok(55)
    } else if str_eq(t, "Ba") {
        Result::Ok(56)
    } else if str_eq(t, "La") {
        Result::Ok(57)
    } else if str_eq(t, "Ce") {
        Result::Ok(58)
    } else if str_eq(t, "Pr") {
        Result::Ok(59)
    } else if str_eq(t, "Nd") {
        Result::Ok(60)
    } else if str_eq(t, "Pm") {
        Result::Ok(61)
    } else if str_eq(t, "Sm") {
        Result::Ok(62)
    } else if str_eq(t, "Eu") {
        Result::Ok(63)
    } else if str_eq(t, "Gd") {
        Result::Ok(64)
    } else if str_eq(t, "Tb") {
        Result::Ok(65)
    } else if str_eq(t, "Dy") {
        Result::Ok(66)
    } else if str_eq(t, "Ho") {
        Result::Ok(67)
    } else if str_eq(t, "Er") {
        Result::Ok(68)
    } else if str_eq(t, "Tm") {
        Result::Ok(69)
    } else if str_eq(t, "Yb") {
        Result::Ok(70)
    } else if str_eq(t, "Lu") {
        Result::Ok(71)
    } else if str_eq(t, "Hf") {
        Result::Ok(72)
    } else if str_eq(t, "Ta") {
        Result::Ok(73)
    } else if str_eq(t, "W") {
        Result::Ok(74)
    } else if str_eq(t, "Re") {
        Result::Ok(75)
    } else if str_eq(t, "Os") {
        Result::Ok(76)
    } else if str_eq(t, "Ir") {
        Result::Ok(77)
    } else if str_eq(t, "Pt") {
        Result::Ok(78)
    } else if str_eq(t, "Au") {
        Result::Ok(79)
    } else if str_eq(t, "Hg") {
        Result::Ok(80)
    } else if str_eq(t, "Tl") {
        Result::Ok(81)
    } else if str_eq(t, "Pb") {
        Result::Ok(82)
    } else if str_eq(t, "Bi") {
        Result::Ok(83)
    } else if str_eq(t, "Po") {
        Result::Ok(84)
    } else if str_eq(t, "At") {
        Result::Ok(85)
    } else if str_eq(t, "Rn") {
        Result::Ok(86)
    } else if str_eq(t, "Fr") {
        Result::Ok(87)
    } else if str_eq(t, "Ra") {
        Result::Ok(88)
    } else if str_eq(t, "Ac") {
        Result::Ok(89)
    } else if str_eq(t, "Th") {
        Result::Ok(90)
    } else if str_eq(t, "Pa") {
        Result::Ok(91)
    } else if str_eq(t, "U") {
        Result::Ok(92)
    } else if str_eq(t, "Np") {
        Result::Ok(93)
    } else if str_eq(t, "Pu") {
        Result::Ok(94)
    } else if str_eq(t, "Am") {
        Result::Ok(95)
    } else if str_eq(t, "Cm") {
        Result::Ok(96)
    } else if str_eq(t, "Bk") {
        Result::Ok(97)
    } else if str_eq(t, "Cf") {
        Result::Ok(98)
    } else if str_eq(t, "Es") {
        Result::Ok(99)
    } else if str_eq(t, "Fm") {
        Result::Ok(100)
    } else if str_eq(t, "Md") {
        Result::Ok(101)
    } else if str_eq(t, "No") {
        Result::Ok(102)
    } else if str_eq(t, "Lr") {
        Result::Ok(103)
    } else if str_eq(t, "Rf") {
        Result::Ok(104)
    } else if str_eq(t, "Db") {
        Result::Ok(105)
    } else if str_eq(t, "Sg") {
        Result::Ok(106)
    } else if str_eq(t, "Bh") {
        Result::Ok(107)
    } else if str_eq(t, "Hs") {
        Result::Ok(108)
    } else if str_eq(t, "Mt") {
        Result::Ok(109)
    } else if str_eq(t, "Ds") {
        Result::Ok(110)
    } else if str_eq(t, "Rg") {
        Result::Ok(111)
    } else if str_eq(t, "Cn") {
        Result::Ok(112)
    } else if str_eq(t, "Nh") {
        Result::Ok(113)
    } else if str_eq(t, "Fl") {
        Result::Ok(114)
    } else if str_eq(t, "Mc") {
        Result::Ok(115)
    } else if str_eq(t, "Lv") {
        Result::Ok(116)
    } else if str_eq(t, "Ts") {
        Result::Ok(117)
    } else if str_eq(t, "Og") {
        Result::Ok(118)
    } else {
        Result::Err(Error::ParseFile(s.to_owned()))
    }
}

} // verus!
