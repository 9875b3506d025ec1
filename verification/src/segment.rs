//! Splitting text into extended grapheme clusters.
//!
//! The boundary rules of Unicode text segmentation are not restated here. The segmentation
//! of a text is a named, unspecified function of the text, and the one function of this
//! module that computes it is trusted to return exactly that.

use unicode_segmentation::UnicodeSegmentation;
use vstd::prelude::*;

verus! {

/// The extended grapheme clusters of `text`, in order of appearance.
pub uninterp spec fn grapheme_clusters(text: Seq<char>) -> Seq<Seq<char>>;

/// Splits `text` into its extended grapheme clusters.
///
/// Trusted: calls `UnicodeSegmentation::graphemes` with `is_extended` set and collects what
/// the iterator yields. The contract claims only that the clusters handed back are, one for
/// one and in order, those that [`grapheme_clusters`] names for this text; it says nothing
/// about where the boundaries fall. The iterator is given the whole text at once and so has
/// no failing case: the call returns for every text.
#[verifier::external_body]
pub(crate) fn graphemes<'a>(text: &'a str) -> (clusters: Vec<&'a str>)
    ensures
        clusters.deep_view() == grapheme_clusters(text@),
{
    UnicodeSegmentation::graphemes(text, true).collect()
}

} // verus!
