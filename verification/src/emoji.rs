//! Catalog records: an emoji character paired with its short name.

use vstd::prelude::*;

verus! {

/// One record of an emoji catalog.
///
/// `character` is the emoji as text (one extended grapheme cluster, possibly several scalar
/// values), `name` its short ASCII identifier without surrounding punctuation.
pub struct Emoji {
    /// The emoji itself.
    pub character: String,
    /// Its short name.
    pub name: String,
}

/// The mathematical content of an [`Emoji`]: both fields as sequences of scalar values.
pub struct EmojiSpec {
    /// The scalar values of the emoji.
    pub character: Seq<char>,
    /// The scalar values of its name.
    pub name: Seq<char>,
}

impl View for Emoji {
    type V = EmojiSpec;

    open spec fn view(&self) -> EmojiSpec {
        EmojiSpec { character: self.character@, name: self.name@ }
    }
}

impl Emoji {
    /// A record holding copies of the two given strings.
    pub fn new(character: &str, name: &str) -> (emoji: Emoji)
        ensures
            emoji@.character == character@,
            emoji@.name == name@,
    {
        Emoji { character: character.to_owned(), name: name.to_owned() }
    }

    /// An independent copy of this record.
    pub fn duplicate(&self) -> (copy: Emoji)
        ensures
            copy@ == self@,
    {
        Emoji { character: self.character.clone(), name: self.name.clone() }
    }
}

/// The records of a catalog, each taken by its view, in catalog order.
pub open spec fn records(catalog: Seq<Emoji>) -> Seq<EmojiSpec> {
    catalog.map_values(|emoji: Emoji| emoji@)
}

/// No two records of `entries` share a character.
pub open spec fn distinct_characters(entries: Seq<EmojiSpec>) -> bool {
    forall|i: int, j: int|
        0 <= i < j < entries.len() ==> entries[i].character != entries[j].character
}

} // verus!
