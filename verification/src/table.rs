//! The two lookup tables of the codec and the routine that builds them from a catalog.

use crate::emoji::{distinct_characters, records, Emoji, EmojiSpec};
use vstd::hash_map::StringHashMap;
use vstd::prelude::*;

verus! {

/// Number of entries in a table: one for every byte value.
pub const TABLE_SIZE: usize = 256;

/// The mathematical content of a [`Table`].
pub struct TableSpec {
    /// Byte value to catalog record; position `b` holds the record of byte `b`.
    pub forward: Seq<EmojiSpec>,
    /// Emoji character to byte value.
    pub reverse: Map<Seq<char>, u8>,
}

impl TableSpec {
    /// The emoji character that stands for byte `b`.
    pub open spec fn character(self, b: u8) -> Seq<char> {
        self.forward[b as int].character
    }

    /// The short name of the emoji that stands for byte `b`.
    pub open spec fn name(self, b: u8) -> Seq<char> {
        self.forward[b as int].name
    }

    /// The byte that `cluster` stands for, if it is one of the table's emoji.
    pub open spec fn lookup(self, cluster: Seq<char>) -> Option<u8> {
        if self.reverse.contains_key(cluster) {
            Some(self.reverse[cluster])
        } else {
            None
        }
    }

    /// The table invariant: `forward` covers every byte value, and `reverse` is exactly its
    /// inverse on characters.
    pub open spec fn wf(self) -> bool {
        &&& self.forward.len() == TABLE_SIZE
        &&& forall|b: u8| self.lookup(#[trigger] self.character(b)) == Some(b)
        &&& forall|cluster: Seq<char>| #[trigger]
            self.reverse.contains_key(cluster) ==> self.character(self.reverse[cluster]) == cluster
    }

    /// The table whose forward mapping is `forward` and whose reverse mapping sends each
    /// character of `forward` to a position that holds it.
    pub open spec fn of(forward: Seq<EmojiSpec>) -> TableSpec {
        TableSpec {
            forward,
            reverse: Map::new(
                |cluster: Seq<char>|
                    exists|b: u8| #[trigger] forward[b as int].character == cluster,
                |cluster: Seq<char>|
                    choose|b: u8| #[trigger] forward[b as int].character == cluster,
            ),
        }
    }
}

/// A pair of lookup tables that the codec can run on: from a byte to its emoji and name, and
/// from an emoji back to its byte.
pub trait Lookup: View<V = TableSpec> {
    /// The emoji character that stands for byte `b`.
    fn character(&self, b: u8) -> (character: &str)
        ensures
            character@ == self@.character(b),
    ;

    /// The short name of the emoji that stands for byte `b`.
    fn name(&self, b: u8) -> (name: &str)
        ensures
            name@ == self@.name(b),
    ;

    /// The byte that `cluster` stands for, or `None` if it is not one of the table's emoji.
    fn lookup(&self, cluster: &str) -> (found: Option<u8>)
        ensures
            found == self@.lookup(cluster@),
    ;
}

/// Why a catalog cannot be made into a table.
#[derive(Debug, Clone, Copy, PartialEq, Eq, Structural)]
pub enum BuildError {
    /// The catalog holds fewer records than there are byte values.
    CatalogTooSmall,
    /// Two of the records that would be used share a character.
    DuplicateCharacter,
}

/// The forward and reverse mappings between byte values and emoji.
///
/// A table is immutable once built; every value of this type satisfies [`TableSpec::wf`].
pub struct Table {
    forward: Vec<Emoji>,
    reverse: StringHashMap<u8>,
}

impl View for Table {
    type V = TableSpec;

    closed spec fn view(&self) -> TableSpec {
        TableSpec { forward: records(self.forward@), reverse: self.reverse@ }
    }
}

impl Table {
    /// What holds of every table: its content satisfies the table invariant.
    #[verifier::type_invariant]
    pub open spec fn well_formed(&self) -> bool {
        self@.wf()
    }

    /// Builds the tables from the first `TABLE_SIZE` records of `catalog`, in catalog order.
    ///
    /// Record `i` becomes the entry of byte `i`; records past the first `TABLE_SIZE` are
    /// ignored. A catalog that is too short, or one that repeats a character among the
    /// records used, is refused.
    pub fn build(catalog: &[Emoji]) -> (built: Result<Table, BuildError>)
        ensures
            match built {
                Ok(table) => {
                    &&& catalog@.len() >= TABLE_SIZE
                    &&& distinct_characters(records(catalog@).take(TABLE_SIZE as int))
                    &&& table@ == TableSpec::of(records(catalog@).take(TABLE_SIZE as int))
                    &&& table@.wf()
                },
                Err(BuildError::CatalogTooSmall) => catalog@.len() < TABLE_SIZE,
                Err(BuildError::DuplicateCharacter) => {
                    &&& catalog@.len() >= TABLE_SIZE
                    &&& !distinct_characters(records(catalog@).take(TABLE_SIZE as int))
                },
            },
    {
        if catalog.len() < TABLE_SIZE {
            return Err(BuildError::CatalogTooSmall);
        }
        let ghost used = records(catalog@).take(TABLE_SIZE as int);
        let mut forward: Vec<Emoji> = Vec::with_capacity(TABLE_SIZE);
        let mut reverse: StringHashMap<u8> = StringHashMap::with_capacity(TABLE_SIZE);
        let mut i: usize = 0;
        while i < TABLE_SIZE
            invariant
                i <= TABLE_SIZE <= catalog@.len(),
                used == records(catalog@).take(TABLE_SIZE as int),
                used.len() == TABLE_SIZE,
                forward@.len() == i,
                records(forward@) == used.take(i as int),
                distinct_characters(used.take(i as int)),
                forall|cluster: Seq<char>| #[trigger]
                    reverse@.contains_key(cluster) ==> reverse@[cluster] < i
                        && used[reverse@[cluster] as int].character == cluster,
                forall|j: int|
                    0 <= j < i ==> reverse@.contains_key(#[trigger] used[j].character)
                        && reverse@[used[j].character] == j,
            decreases TABLE_SIZE - i,
        {
            let emoji = &catalog[i];
            assert(used[i as int] == emoji@);
            if reverse.contains_key(emoji.character.as_str()) {
                proof {
                    let j = reverse@[emoji@.character] as int;
                    assert(used[j].character == used[i as int].character);
                }
                return Err(BuildError::DuplicateCharacter);
            }
            reverse.insert(emoji.character.clone(), i as u8);
            let ghost before = forward@;
            forward.push(emoji.duplicate());
            proof {
                let earlier = used.take(i as int);
                let extended = used.take(i + 1);
                assert(records(forward@) =~= extended) by {
                    assert(records(before) == earlier);
                    assert forall|k: int| 0 <= k < i + 1 implies records(forward@)[k]
                        == extended[k] by {
                        if k < i {
                            assert(records(before)[k] == earlier[k]);
                        }
                    }
                }
                assert forall|a: int, b: int|
                    0 <= a < b < extended.len() implies extended[a].character
                    != extended[b].character by {
                    if b < i {
                        assert(earlier[a].character != earlier[b].character);
                    }
                }
            }
            i += 1;
        }
        proof {
            assert(used.take(TABLE_SIZE as int) =~= used);
            let built = TableSpec { forward: records(forward@), reverse: reverse@ };
            assert(built.wf()) by {
                assert forall|b: u8| built.lookup(#[trigger] built.character(b)) == Some(b) by {
                    assert(reverse@.contains_key(used[b as int].character));
                }
            }
            lemma_wf_determined(built);
        }
        Ok(Table { forward, reverse })
    }

    /// The record of byte `b`.
    pub fn emoji(&self, b: u8) -> (emoji: &Emoji)
        ensures
            emoji@ == self@.forward[b as int],
    {
        proof {
            use_type_invariant(self);
        }
        &self.forward[b as usize]
    }
}

impl Lookup for Table {
    fn character(&self, b: u8) -> (character: &str) {
        self.emoji(b).character.as_str()
    }

    fn name(&self, b: u8) -> (name: &str) {
        self.emoji(b).name.as_str()
    }

    fn lookup(&self, cluster: &str) -> (found: Option<u8>) {
        match self.reverse.get(cluster) {
            Some(b) => Some(*b),
            None => None,
        }
    }
}

/// A table with `TABLE_SIZE` pairwise distinct characters built by [`TableSpec::of`] is well
/// formed.
pub proof fn lemma_of_wf(forward: Seq<EmojiSpec>)
    requires
        forward.len() == TABLE_SIZE,
        distinct_characters(forward),
    ensures
        TableSpec::of(forward).wf(),
{
    let table = TableSpec::of(forward);
    assert forall|b: u8| table.lookup(#[trigger] table.character(b)) == Some(b) by {
        let cluster = forward[b as int].character;
        assert(table.reverse.contains_key(cluster));
        let found = table.reverse[cluster];
        assert(forward[found as int].character == cluster);
        if found < b {
            assert(forward[found as int].character != forward[b as int].character);
        } else if b < found {
            assert(forward[b as int].character != forward[found as int].character);
        }
    }
}

/// In a well-formed table no two byte values share a character.
pub proof fn lemma_forward_injective(table: TableSpec, i: u8, j: u8)
    requires
        table.wf(),
        i != j,
    ensures
        table.character(i) != table.character(j),
{
    assert(table.lookup(table.character(i)) == Some(i));
    assert(table.lookup(table.character(j)) == Some(j));
}

/// A well-formed table is determined by its forward mapping.
pub proof fn lemma_wf_determined(table: TableSpec)
    requires
        table.wf(),
    ensures
        distinct_characters(table.forward),
        table == TableSpec::of(table.forward),
{
    assert forall|i: int, j: int|
        0 <= i < j < table.forward.len() implies table.forward[i].character
        != table.forward[j].character by {
        lemma_forward_injective(table, i as u8, j as u8);
    }
    let other = TableSpec::of(table.forward);
    lemma_of_wf(table.forward);
    assert forall|cluster: Seq<char>|
        table.reverse.contains_key(cluster) implies other.reverse.contains_key(cluster)
        && other.reverse[cluster] == table.reverse[cluster] by {
        let b = table.reverse[cluster];
        assert(table.character(b) == cluster);
        assert(other.lookup(other.character(b)) == Some(b));
    }
    assert forall|cluster: Seq<char>|
        other.reverse.contains_key(cluster) implies table.reverse.contains_key(cluster) by {
        let b = other.reverse[cluster];
        assert(other.character(b) == cluster);
        assert(table.lookup(table.character(b)) == Some(b));
    }
    assert(table.reverse =~= other.reverse);
}

} // verus!
