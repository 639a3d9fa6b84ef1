//! Catalog entries and the shape of their secret codes.

use vstd::prelude::*;
use vstd::string::*;
use crate::kind::CheatCodeKind;
use crate::rarity::CheatCodeRarity;

verus! {

/// Whether a character is an ASCII letter or digit.
pub open spec fn is_alphanumeric(c: char) -> bool {
    ||| '0' <= c <= '9'
    ||| 'A' <= c <= 'Z'
    ||| 'a' <= c <= 'z'
}

/// Whether `text` has the shape of a secret code of the given rarity: the
/// length that the rarity fixes, and letters and digits only.
pub open spec fn is_code_of(rarity: CheatCodeRarity, text: Seq<char>) -> bool {
    &&& text.len() == rarity.code_length()
    &&& forall|i: int| 0 <= i < text.len() ==> is_alphanumeric(#[trigger] text[i])
}

/// Decides `is_alphanumeric`.
pub fn char_is_alphanumeric(c: char) -> (b: bool)
    ensures
        b == is_alphanumeric(c),
{
    ('0' <= c && c <= '9') || ('A' <= c && c <= 'Z') || ('a' <= c && c <= 'z')
}

/// Decides `is_code_of`.
pub fn has_code_shape(rarity: CheatCodeRarity, text: &str) -> (b: bool)
    ensures
        b == is_code_of(rarity, text@),
{
    let len = text.unicode_len();
    if len != rarity.code_length() {
        return false;
    }
    let mut i: usize = 0;
    while i < len
        invariant
            len == text@.len(),
            i <= len,
            forall|j: int| 0 <= j < i ==> is_alphanumeric(#[trigger] text@[j]),
        decreases len - i,
    {
        if !char_is_alphanumeric(text.get_char(i)) {
            return false;
        }
        i += 1;
    }
    true
}

/// One entry of the catalog.
#[derive(Debug)]
pub struct CheatCode {
    /// The ability that the entry describes.
    pub kind: CheatCodeKind,
    /// The tier of the ability: its selection weight and its code length.
    pub rarity: CheatCodeRarity,
    /// The secret code that redeems the ability.
    pub text: String,
    /// The abilities that must be activated first.
    pub dependencies: Vec<CheatCodeKind>,
    /// The icon shown for the ability.
    pub image: String,
}

impl CheatCode {
    /// An entry made of the given parts, as they are.
    pub fn new(
        kind: CheatCodeKind,
        rarity: CheatCodeRarity,
        text: &str,
        dependencies: Vec<CheatCodeKind>,
        image: String,
    ) -> (code: Self)
        ensures
            code.kind == kind,
            code.rarity == rarity,
            code.text@ == text@,
            code.dependencies == dependencies,
            code.image == image,
    {
        Self { kind, rarity, text: text.to_string(), dependencies, image }
    }

    /// Whether the entry carries the static data of its ability: the rarity,
    /// the prerequisites and the icon that the catalog fixes for `self.kind`.
    pub open spec fn has_static_data(&self) -> bool {
        &&& self.rarity == self.kind.rarity()
        &&& self.dependencies@ == self.kind.dependencies()
        &&& self.image@ == self.kind.image()
    }

    /// Whether the entry is a well-formed catalog entry: the static data of
    /// its ability, and a secret code of the shape that the rarity asks for.
    pub open spec fn is_entry(&self) -> bool {
        &&& self.has_static_data()
        &&& is_code_of(self.rarity, self.text@)
    }

    /// The weight of the entry in the weighted draw.
    pub fn weight(&self) -> (w: u8)
        ensures
            w == self.rarity.weight(),
    {
        self.rarity.weight()
    }
}

} // verus!
