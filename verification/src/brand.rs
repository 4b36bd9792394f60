//! Which mouse brand is in use, and by which path its DPI changes.
//!
//! Every manufacturer has its own protocol: there is no standard HID command for DPI.
//! Adding a brand means adding a variant here and an engine that serves it.

use vstd::prelude::*;

verus! {

#[derive(Debug, Clone, Copy, PartialEq, Eq, Structural, Hash)]
pub enum Brand {
    Logitech,
    /// SINOWEALTH chipset (VID 258a), inside many cheap unbranded gaming mice. It is the
    /// chip's maker, not the mouse's.
    Sinowealth,
    SemMarca,
}

/// The text the selector shows for a brand.
pub open spec fn label_of(brand: Brand) -> Seq<char> {
    match brand {
        Brand::Logitech => "Logitech"@,
        Brand::Sinowealth => "Genérico (SINOWEALTH)"@,
        Brand::SemMarca => "Sem marca"@,
    }
}

/// How the DPI changes for a brand, shown under the selector.
pub open spec fn method_of(brand: Brand) -> Seq<char> {
    match brand {
        Brand::Logitech => "HID++ direto no mouse"@,
        Brand::Sinowealth => "troca de perfil no mouse"@,
        Brand::SemMarca => "driver RawAccel"@,
    }
}

impl Default for Brand {
    fn default() -> (brand: Self)
        ensures
            brand == Brand::Logitech,
    {
        Brand::Logitech
    }
}

impl Brand {
    /// Every brand, in the order the selector lists them.
    pub const ALL: [Brand; 3] = [Brand::Logitech, Brand::Sinowealth, Brand::SemMarca];

    pub fn label(self) -> (text: &'static str)
        ensures
            text@ == label_of(self),
    {
        match self {
            Brand::Logitech => "Logitech",
            Brand::Sinowealth => "Genérico (SINOWEALTH)",
            Brand::SemMarca => "Sem marca",
        }
    }

    /// How the DPI changes for this brand, so the user knows what to expect.
    pub fn method(self) -> (text: &'static str)
        ensures
            text@ == method_of(self),
    {
        match self {
            Brand::Logitech => "HID++ direto no mouse",
            Brand::Sinowealth => "troca de perfil no mouse",
            Brand::SemMarca => "driver RawAccel",
        }
    }
}

/// Position of a brand in `Brand::ALL`.
pub open spec fn index_of(brand: Brand) -> u8 {
    match brand {
        Brand::Logitech => 0,
        Brand::Sinowealth => 1,
        Brand::SemMarca => 2,
    }
}

/// The brand at a stored position; a position past the end reads as the last one.
pub open spec fn brand_at(index: u8) -> Brand {
    if index == 0 {
        Brand::Logitech
    } else if index == 1 {
        Brand::Sinowealth
    } else {
        Brand::SemMarca
    }
}

impl Brand {
    /// Position of this brand in `ALL`, the form it takes in a one-byte store.
    pub fn index(self) -> (index: u8)
        ensures
            index == index_of(self),
            Self::ALL@[index as int] == self,
    {
        match self {
            Brand::Logitech => 0,
            Brand::Sinowealth => 1,
            Brand::SemMarca => 2,
        }
    }

    /// The brand stored at `index`; an index past the end reads as the last brand.
    pub fn from_index(index: u8) -> (brand: Brand)
        ensures
            brand == brand_at(index),
    {
        if index == 0 {
            Brand::Logitech
        } else if index == 1 {
            Brand::Sinowealth
        } else {
            Brand::SemMarca
        }
    }
}

/// Storing a brand by its index and reading it back gives the same brand.
pub proof fn lemma_brand_index_round_trip(brand: Brand)
    ensures
        brand_at(index_of(brand)) == brand,
{
}

/// Two brands never share a label nor a method: the selector could not tell them apart.
pub proof fn lemma_labels_and_methods_distinct(a: Brand, b: Brand)
    requires
        a != b,
    ensures
        label_of(a) != label_of(b),
        method_of(a) != method_of(b),
{
    reveal_strlit("Logitech");
    reveal_strlit("Genérico (SINOWEALTH)");
    reveal_strlit("Sem marca");
    reveal_strlit("HID++ direto no mouse");
    reveal_strlit("troca de perfil no mouse");
    reveal_strlit("driver RawAccel");
    assert(label_of(a).len() != label_of(b).len());
    assert(method_of(a).len() != method_of(b).len());
}

/// `ALL` lists every variant, each once.
pub proof fn lemma_all_lists_every_brand(brand: Brand)
    ensures
        exists|i: int| 0 <= i < 3 && Brand::ALL@[i] == brand,
        Brand::ALL@.len() == 3,
        Brand::ALL@[0] != Brand::ALL@[1],
        Brand::ALL@[0] != Brand::ALL@[2],
        Brand::ALL@[1] != Brand::ALL@[2],
{
    match brand {
        Brand::Logitech => assert(Brand::ALL@[0] == brand),
        Brand::Sinowealth => assert(Brand::ALL@[1] == brand),
        Brand::SemMarca => assert(Brand::ALL@[2] == brand),
    }
}

} // verus!
