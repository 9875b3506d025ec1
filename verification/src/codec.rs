//! The encoding and decoding passes, over any pair of lookup tables.

use crate::segment::{grapheme_clusters, graphemes};
use crate::table::{Lookup, TableSpec};
use vstd::prelude::*;
use vstd::string::StringExecFns;

verus! {

impl TableSpec {
    /// The emoji of `bytes`, one per byte, in input order.
    pub open spec fn encode_clusters(self, bytes: Seq<u8>) -> Seq<Seq<char>> {
        bytes.map_values(|b: u8| self.character(b))
    }

    /// The emoji of `bytes` concatenated without separators.
    pub open spec fn encode(self, bytes: Seq<u8>) -> Seq<char> {
        self.encode_clusters(bytes).flatten()
    }

    /// The bytes of those `clusters` that are emoji of the table, in order; every other
    /// cluster contributes nothing.
    pub open spec fn decode_clusters(self, clusters: Seq<Seq<char>>) -> Seq<u8> {
        clusters.filter_map(|cluster: Seq<char>| self.lookup(cluster))
    }

    /// The bytes that the grapheme clusters of `text` stand for.
    pub open spec fn decode(self, text: Seq<char>) -> Seq<u8> {
        self.decode_clusters(grapheme_clusters(text))
    }

    /// The name of byte `b` between two colons.
    pub open spec fn framed_name(self, b: u8) -> Seq<char> {
        seq![':'] + self.name(b) + seq![':']
    }

    /// The framed names of `bytes` concatenated without separators.
    pub open spec fn encode_to_names(self, bytes: Seq<u8>) -> Seq<char> {
        bytes.map_values(|b: u8| self.framed_name(b)).flatten()
    }

    /// `formatter` may be called with the character and the name of byte `b`.
    pub open spec fn accepts<F: Fn(&str, &str) -> String>(self, formatter: F, b: u8) -> bool {
        forall|character: &str, name: &str|
            character@ == self.character(b) && name@ == self.name(b) ==> call_requires(
                formatter,
                (character, name),
            )
    }

    /// `piece` is a result of `formatter` applied to the character and the name of byte `b`.
    pub open spec fn renders<F: Fn(&str, &str) -> String>(
        self,
        formatter: F,
        b: u8,
        piece: String,
    ) -> bool {
        exists|character: &str, name: &str|
            character@ == self.character(b) && name@ == self.name(b) && call_ensures(
                formatter,
                (character, name),
                piece,
            )
    }

    /// `pieces` holds, for each of `bytes` in order, a result of `formatter` for that byte.
    pub open spec fn renders_each<F: Fn(&str, &str) -> String>(
        self,
        formatter: F,
        bytes: Seq<u8>,
        pieces: Seq<String>,
    ) -> bool {
        &&& pieces.len() == bytes.len()
        &&& forall|i: int|
            0 <= i < bytes.len() ==> self.renders(formatter, bytes[i], #[trigger] pieces[i])
    }
}

/// The texts of `pieces` concatenated in order.
pub open spec fn joined(pieces: Seq<String>) -> Seq<char> {
    pieces.map_values(|piece: String| piece@).flatten()
}

/// Mapping then flattening a sequence extended by one element appends the image of that
/// element.
pub proof fn lemma_flat_map_push<A, B>(s: Seq<A>, x: A, f: spec_fn(A) -> Seq<B>)
    ensures
        s.push(x).map_values(f).flatten() == s.map_values(f).flatten() + f(x),
{
    assert(s.push(x).map_values(f) =~= s.map_values(f).push(f(x)));
    s.map_values(f).lemma_flatten_push(f(x));
}

/// Encoding one byte yields exactly the emoji of that byte, and the reverse mapping leads from
/// that emoji back to the byte.
pub proof fn lemma_encode_single(table: TableSpec, b: u8)
    requires
        table.wf(),
    ensures
        table.encode_clusters(seq![b]) == seq![table.character(b)],
        table.encode(seq![b]) == table.character(b),
        table.lookup(table.character(b)) == Some(b),
{
    assert(table.encode_clusters(seq![b]) =~= seq![table.character(b)]);
    seq![table.character(b)].lemma_flatten_singleton();
}

/// Decoding a concatenation of cluster sequences is the concatenation of the decodings.
pub proof fn lemma_decode_concat(table: TableSpec, front: Seq<Seq<char>>, back: Seq<Seq<char>>)
    ensures
        table.decode_clusters(front + back) == table.decode_clusters(front) + table.decode_clusters(
            back,
        ),
    decreases back.len(),
{
    if back.len() == 0 {
        assert(front + back =~= front);
        assert(table.decode_clusters(back) =~= Seq::<u8>::empty());
        assert(table.decode_clusters(front) + Seq::<u8>::empty() =~= table.decode_clusters(front));
    } else {
        lemma_decode_concat(table, front, back.drop_last());
        assert((front + back).drop_last() =~= front + back.drop_last());
        assert((front + back).last() == back.last());
        assert(table.decode_clusters(front + back) =~= table.decode_clusters(front)
            + table.decode_clusters(back));
    }
}

/// Decoding never yields more bytes than there are clusters, and yields as many exactly when
/// every cluster is an emoji of the table.
pub proof fn lemma_decode_length(table: TableSpec, clusters: Seq<Seq<char>>)
    ensures
        table.decode_clusters(clusters).len() <= clusters.len(),
        table.decode_clusters(clusters).len() == clusters.len() <==> forall|i: int|
            0 <= i < clusters.len() ==> table.lookup(#[trigger] clusters[i]) is Some,
    decreases clusters.len(),
{
    if clusters.len() > 0 {
        let rest = clusters.drop_last();
        lemma_decode_length(table, rest);
        if table.decode_clusters(clusters).len() == clusters.len() {
            assert forall|i: int| 0 <= i < clusters.len() implies table.lookup(
                #[trigger] clusters[i],
            ) is Some by {
                if i < rest.len() {
                    assert(rest[i] == clusters[i]);
                }
            }
        }
        if forall|i: int| 0 <= i < clusters.len() ==> table.lookup(#[trigger] clusters[i]) is Some {
            assert forall|i: int| 0 <= i < rest.len() implies table.lookup(
                #[trigger] rest[i],
            ) is Some by {
                assert(rest[i] == clusters[i]);
            }
            assert(table.lookup(clusters.last()) is Some);
        }
    }
}

/// Clusters that are not emoji of the table are transparent to decoding: taking all of them
/// out of the input leaves the decoded bytes unchanged.
pub proof fn lemma_decode_skips_unrecognised(table: TableSpec, clusters: Seq<Seq<char>>)
    ensures
        table.decode_clusters(clusters) == table.decode_clusters(
            clusters.filter(|cluster: Seq<char>| table.lookup(cluster) is Some),
        ),
    decreases clusters.len(),
{
    let recognised = |cluster: Seq<char>| table.lookup(cluster) is Some;
    reveal(Seq::filter);
    if clusters.len() > 0 {
        let rest = clusters.drop_last();
        lemma_decode_skips_unrecognised(table, rest);
        if recognised(clusters.last()) {
            let kept = rest.filter(recognised);
            assert(clusters.filter(recognised) == kept.push(clusters.last()));
            assert(kept.push(clusters.last()).drop_last() =~= kept);
        }
    }
}

/// Clusters that are not emoji of the table may be inserted anywhere without changing what
/// the text around them decodes to.
pub proof fn lemma_decode_ignores_inserted(
    table: TableSpec,
    front: Seq<Seq<char>>,
    inserted: Seq<Seq<char>>,
    back: Seq<Seq<char>>,
)
    requires
        forall|i: int| 0 <= i < inserted.len() ==> table.lookup(#[trigger] inserted[i]) is None,
    ensures
        table.decode_clusters(front + inserted + back) == table.decode_clusters(front + back),
    decreases inserted.len(),
{
    if inserted.len() == 0 {
        assert(front + inserted =~= front);
    } else {
        let fewer = inserted.drop_last();
        assert forall|i: int| 0 <= i < fewer.len() implies table.lookup(
            #[trigger] fewer[i],
        ) is None by {
            assert(fewer[i] == inserted[i]);
        }
        lemma_decode_ignores_inserted(table, front, fewer, back);
        assert(table.lookup(inserted.last()) is None);
        assert((front + inserted).drop_last() =~= front + fewer);
        assert(table.decode_clusters(front + inserted) == table.decode_clusters(front + fewer));
        lemma_decode_concat(table, front + inserted, back);
        lemma_decode_concat(table, front + fewer, back);
    }
}

/// Decoding the emoji that encoding produces gives the bytes back.
pub proof fn lemma_round_trip_clusters(table: TableSpec, bytes: Seq<u8>)
    requires
        table.wf(),
    ensures
        table.decode_clusters(table.encode_clusters(bytes)) == bytes,
    decreases bytes.len(),
{
    let clusters = table.encode_clusters(bytes);
    if bytes.len() == 0 {
        assert(table.decode_clusters(clusters) =~= bytes);
    } else {
        lemma_round_trip_clusters(table, bytes.drop_last());
        assert(clusters.drop_last() =~= table.encode_clusters(bytes.drop_last()));
        assert(clusters.last() == table.character(bytes.last()));
        assert(table.lookup(table.character(bytes.last())) == Some(bytes.last()));
        assert(bytes.drop_last() + seq![bytes.last()] =~= bytes);
    }
}

/// Round trip through text: whenever segmentation splits an encoded text back into the emoji
/// it was concatenated from, decoding it gives the bytes back.
pub proof fn lemma_round_trip(table: TableSpec, bytes: Seq<u8>)
    requires
        table.wf(),
    ensures
        grapheme_clusters(table.encode(bytes)) == table.encode_clusters(bytes) ==> table.decode(
            table.encode(bytes),
        ) == bytes,
{
    lemma_round_trip_clusters(table, bytes);
}

/// The names encoding of one byte is its name between two colons.
pub proof fn lemma_names_single(table: TableSpec, b: u8)
    ensures
        table.encode_to_names(seq![b]) == seq![':'] + table.name(b) + seq![':'],
{
    assert(seq![b].map_values(|b: u8| table.framed_name(b)) =~= seq![table.framed_name(b)]);
    seq![table.framed_name(b)].lemma_flatten_singleton();
}

/// `name` between two colons.
pub fn framed(name: &str) -> (text: String)
    ensures
        text@ == seq![':'] + name@ + seq![':'],
{
    proof {
        reveal_strlit(":");
        assert(":"@ =~= seq![':']);
    }
    let mut text = ":".to_owned();
    text.append(name);
    text.append(":");
    text
}

/// Concatenates `pieces` in order.
pub fn concatenate(pieces: &[String]) -> (text: String)
    ensures
        text@ == joined(pieces@),
{
    let mut text = String::new();
    let mut i: usize = 0;
    while i < pieces.len()
        invariant
            i <= pieces@.len(),
            text@ == joined(pieces@.take(i as int)),
        decreases pieces@.len() - i,
    {
        text.append(pieces[i].as_str());
        proof {
            assert(pieces@.take(i + 1) =~= pieces@.take(i as int).push(pieces@[i as int]));
            lemma_flat_map_push(pieces@.take(i as int), pieces@[i as int], |piece: String| piece@);
        }
        i += 1;
    }
    proof {
        assert(pieces@.take(i as int) =~= pieces@);
    }
    text
}

/// Encodes `bytes` as a string of emoji: the emoji of each byte, in input order, with nothing in
/// between.
pub fn encode<T: Lookup>(table: &T, bytes: &[u8]) -> (text: String)
    ensures
        text@ == table@.encode(bytes@),
{
    let mut text = String::new();
    let mut i: usize = 0;
    while i < bytes.len()
        invariant
            i <= bytes@.len(),
            text@ == table@.encode(bytes@.take(i as int)),
        decreases bytes@.len() - i,
    {
        text.append(table.character(bytes[i]));
        proof {
            assert(bytes@.take(i + 1) =~= bytes@.take(i as int).push(bytes@[i as int]));
            lemma_flat_map_push(
                bytes@.take(i as int),
                bytes@[i as int],
                |b: u8| table@.character(b),
            );
        }
        i += 1;
    }
    proof {
        assert(bytes@.take(i as int) =~= bytes@);
    }
    text
}

/// Decodes a text that is already split into clusters: each cluster that is an emoji of the
/// table yields its byte, every other cluster is passed over.
pub fn decode_clusters<T: Lookup>(table: &T, clusters: &[&str]) -> (bytes: Vec<u8>)
    ensures
        bytes@ == table@.decode_clusters(clusters.deep_view()),
        bytes@.len() <= clusters@.len(),
{
    proof {
        lemma_decode_length(table@, clusters.deep_view());
    }
    let mut bytes: Vec<u8> = Vec::new();
    let mut i: usize = 0;
    while i < clusters.len()
        invariant
            i <= clusters@.len(),
            bytes@ == table@.decode_clusters(clusters.deep_view().take(i as int)),
        decreases clusters@.len() - i,
    {
        let found = table.lookup(clusters[i]);
        proof {
            clusters.deep_view().lemma_filter_map_take_succ(
                |cluster: Seq<char>| table@.lookup(cluster),
                i as int,
            );
        }
        if let Some(b) = found {
            bytes.push(b);
        }
        i += 1;
    }
    proof {
        assert(clusters.deep_view().take(i as int) =~= clusters.deep_view());
    }
    bytes
}

/// Decodes `text`: splits it into extended grapheme clusters and decodes those.
///
/// Clusters that are not emoji of the table are skipped silently, so a text that [`encode`]
/// did not produce may decode to fewer bytes than it has clusters, without any error.
pub fn decode<T: Lookup>(table: &T, text: &str) -> (bytes: Vec<u8>)
    ensures
        bytes@ == table@.decode(text@),
        bytes@.len() <= grapheme_clusters(text@).len(),
{
    let clusters = graphemes(text);
    decode_clusters(table, clusters.as_slice())
}

/// Applies `formatter` to the character and the name of each byte, once per byte and in input
/// order, and hands back the results in that order.
pub fn format_each<T: Lookup, F: Fn(&str, &str) -> String>(
    table: &T,
    bytes: &[u8],
    formatter: &F,
) -> (pieces: Vec<String>)
    requires
        forall|i: int| 0 <= i < bytes@.len() ==> table@.accepts(*formatter, #[trigger] bytes@[i]),
    ensures
        table@.renders_each(*formatter, bytes@, pieces@),
{
    let mut pieces: Vec<String> = Vec::with_capacity(bytes.len());
    let mut i: usize = 0;
    while i < bytes.len()
        invariant
            i <= bytes@.len(),
            forall|k: int|
                0 <= k < bytes@.len() ==> table@.accepts(*formatter, #[trigger] bytes@[k]),
            table@.renders_each(*formatter, bytes@.take(i as int), pieces@),
        decreases bytes@.len() - i,
    {
        let character = table.character(bytes[i]);
        let name = table.name(bytes[i]);
        assert(table@.accepts(*formatter, bytes@[i as int]));
        let piece = formatter(character, name);
        assert(table@.renders(*formatter, bytes@[i as int], piece));
        pieces.push(piece);
        i += 1;
    }
    proof {
        assert(bytes@.take(i as int) =~= bytes@);
    }
    pieces
}

/// Encodes `bytes` as text of the caller's making: the results of `formatter` for each byte,
/// concatenated in input order. Nothing is inserted between them.
pub fn encode_custom<T: Lookup, F: Fn(&str, &str) -> String>(
    table: &T,
    bytes: &[u8],
    formatter: F,
) -> (text: String)
    requires
        forall|i: int| 0 <= i < bytes@.len() ==> table@.accepts(formatter, #[trigger] bytes@[i]),
    ensures
        exists|pieces: Seq<String>|
            table@.renders_each(formatter, bytes@, pieces) && text@ == joined(pieces),
{
    let pieces = format_each(table, bytes, &formatter);
    concatenate(pieces.as_slice())
}

/// Encodes `bytes` as emoji names, each between two colons, in input order.
pub fn encode_to_names<T: Lookup>(table: &T, bytes: &[u8]) -> (text: String)
    ensures
        text@ == table@.encode_to_names(bytes@),
{
    let frame = |_character: &str, name: &str| -> (piece: String)
        ensures
            piece@ == seq![':'] + name@ + seq![':'],
        { framed(name) };
    let text = encode_custom(table, bytes, frame);
    proof {
        let pieces = choose|pieces: Seq<String>|
            table@.renders_each(frame, bytes@, pieces) && text@ == joined(pieces);
        assert(pieces.map_values(|piece: String| piece@) =~= bytes@.map_values(
            |b: u8| table@.framed_name(b),
        )) by {
            assert forall|i: int| 0 <= i < bytes@.len() implies (#[trigger] pieces[i])@
                == table@.framed_name(bytes@[i]) by {
                assert(table@.renders(frame, bytes@[i], pieces[i]));
            }
        }
    }
    text
}

} // verus!
