//! A codec between byte buffers and strings of emoji.
//!
//! Every byte value stands for one fixed emoji with a fixed short name. Encoding replaces each
//! byte by its emoji (or by text derived from the emoji and its name); decoding splits a string
//! into extended grapheme clusters, turns every cluster that is one of the emoji back into its
//! byte and passes over everything else.
//!
//! Decoding is lenient on purpose and never fails. A cluster that is no emoji of the table is
//! skipped without a trace, so a truncated or corrupted string still decodes, to fewer bytes,
//! and nothing tells the caller. Only text that encoding produced is sure to decode to the
//! bytes it was made from.
//!
//! The functions of this module run on the built-in table of [`builtin`]. The same passes over
//! a table of one's own, built from a catalog by [`table::Table::build`], are in [`codec`].

use vstd::prelude::*;

pub mod builtin;
pub mod codec;
pub mod emoji;
pub mod segment;
pub mod table;

use crate::builtin::{builtin, Builtin};
use crate::codec::{decode, encode, encode_custom, encode_to_names, joined};
use crate::segment::grapheme_clusters;

verus! {

/// Encodes `buf` as a string of emoji of the built-in table, one emoji per byte.
pub fn to_string(buf: &[u8]) -> (text: String)
    ensures
        text@ == builtin().encode(buf@),
{
    encode(&Builtin, buf)
}

/// Decodes a string of emoji of the built-in table into bytes.
///
/// Grapheme clusters that are not emoji of the table are skipped without any error.
pub fn from_string(input: &str) -> (bytes: Vec<u8>)
    ensures
        bytes@ == builtin().decode(input@),
        bytes@.len() <= grapheme_clusters(input@).len(),
{
    decode(&Builtin, input)
}

/// Encodes `buf` as the names of its emoji in the built-in table, each between two colons.
pub fn to_names(buf: &[u8]) -> (text: String)
    ensures
        text@ == builtin().encode_to_names(buf@),
{
    encode_to_names(&Builtin, buf)
}

/// Encodes `buf` through a formatter of the caller's: `f` gets the emoji character and the
/// name of each byte, in input order, and its results are concatenated as they come.
pub fn to_custom<F: Fn(&str, &str) -> String>(buf: &[u8], f: F) -> (text: String)
    requires
        forall|i: int| 0 <= i < buf@.len() ==> builtin().accepts(f, #[trigger] buf@[i]),
    ensures
        exists|pieces: Seq<String>|
            builtin().renders_each(f, buf@, pieces) && text@ == joined(pieces),
{
    encode_custom(&Builtin, buf, f)
}

} // verus!
