use encoji::builtin::{builtin_catalog, position_of_leading, same_text, Builtin, CATALOG};
use encoji::emoji::Emoji;
use encoji::table::{BuildError, Lookup, Table, TABLE_SIZE};
use std::collections::HashSet;
use unicode_segmentation::UnicodeSegmentation;

/// A catalog of `len` records whose characters are consecutive CJK ideographs.
fn ideograph_catalog(len: u32) -> Vec<Emoji> {
    (0..len)
        .map(|i| {
            let character = char::from_u32(0x4e00 + i).unwrap().to_string();
            Emoji::new(&character, &format!("n{}", i))
        })
        .collect()
}

#[test]
fn table_size_is_the_number_of_byte_values() {
    assert_eq!(TABLE_SIZE, 256);
    assert_eq!(CATALOG.len(), TABLE_SIZE);
}

#[test]
fn emoji_new_copies_both_fields() {
    let emoji = Emoji::new("🔥", "fire");
    assert_eq!(emoji.character, "🔥");
    assert_eq!(emoji.name, "fire");
    let copy = emoji.duplicate();
    assert_eq!(copy.character, emoji.character);
    assert_eq!(copy.name, emoji.name);
}

#[test]
fn build_refuses_an_empty_catalog() {
    assert_eq!(Table::build(&[]).err(), Some(BuildError::CatalogTooSmall));
}

#[test]
fn build_refuses_a_catalog_one_record_short() {
    let catalog = ideograph_catalog(255);
    assert_eq!(Table::build(&catalog).err(), Some(BuildError::CatalogTooSmall));
}

#[test]
fn build_accepts_exactly_enough_records() {
    let catalog = ideograph_catalog(256);
    let table = Table::build(&catalog).unwrap();
    for b in 0..=255u8 {
        assert_eq!(table.character(b), catalog[b as usize].character);
        assert_eq!(table.name(b), format!("n{}", b));
        assert_eq!(table.emoji(b).name, catalog[b as usize].name);
        assert_eq!(table.lookup(&catalog[b as usize].character), Some(b));
    }
}

#[test]
fn build_uses_only_the_leading_records() {
    let catalog = ideograph_catalog(843);
    let table = Table::build(&catalog).unwrap();
    assert_eq!(table.character(0), "\u{4e00}");
    assert_eq!(table.character(255), "\u{4eff}");
    assert_eq!(table.lookup("\u{4eff}"), Some(255));
    // Record 256 and everything after it is left out of both mappings.
    assert_eq!(table.lookup("\u{4f00}"), None);
    assert_eq!(table.lookup(&catalog[842].character), None);
}

#[test]
fn build_refuses_a_repeated_character() {
    let mut catalog = ideograph_catalog(256);
    catalog[200] = Emoji::new(&catalog[3].character.clone(), "again");
    assert_eq!(Table::build(&catalog).err(), Some(BuildError::DuplicateCharacter));
}

#[test]
fn build_refuses_a_repeat_in_the_last_record_used() {
    let mut catalog = ideograph_catalog(300);
    catalog[255] = Emoji::new(&catalog[0].character.clone(), "again");
    assert_eq!(Table::build(&catalog).err(), Some(BuildError::DuplicateCharacter));
}

#[test]
fn build_ignores_repeats_among_unused_records() {
    let mut catalog = ideograph_catalog(300);
    catalog[256] = Emoji::new(&catalog[0].character.clone(), "again");
    catalog[299] = Emoji::new(&catalog[298].character.clone(), "again");
    let table = Table::build(&catalog).unwrap();
    assert_eq!(table.lookup(&catalog[0].character), Some(0));
    assert_eq!(table.name(0), "n0");
}

#[test]
fn too_small_is_reported_before_duplicates() {
    let mut catalog = ideograph_catalog(10);
    catalog[9] = Emoji::new(&catalog[0].character.clone(), "again");
    assert_eq!(Table::build(&catalog).err(), Some(BuildError::CatalogTooSmall));
}

#[test]
fn names_may_repeat() {
    let catalog: Vec<Emoji> = ideograph_catalog(256)
        .into_iter()
        .map(|emoji| Emoji::new(&emoji.character, "same"))
        .collect();
    let table = Table::build(&catalog).unwrap();
    assert_eq!(table.name(17), "same");
    assert_eq!(table.lookup("\u{4e11}"), Some(17));
}

#[test]
fn build_errors_are_distinct_values() {
    assert_ne!(BuildError::CatalogTooSmall, BuildError::DuplicateCharacter);
    assert_eq!(format!("{:?}", BuildError::CatalogTooSmall), "CatalogTooSmall");
    assert_eq!(format!("{:?}", BuildError::DuplicateCharacter), "DuplicateCharacter");
}

#[test]
fn builtin_characters_are_pairwise_distinct() {
    let characters: HashSet<&str> = CATALOG.iter().map(|record| record.0).collect();
    assert_eq!(characters.len(), 256);
}

#[test]
fn builtin_names_are_pairwise_distinct_ascii() {
    let names: HashSet<&str> = CATALOG.iter().map(|record| record.1).collect();
    assert_eq!(names.len(), 256);
    assert!(CATALOG.iter().all(|record| record.1.is_ascii() && !record.1.contains(':')));
}

#[test]
fn builtin_characters_are_single_clusters() {
    for record in CATALOG.iter() {
        let clusters: Vec<&str> = UnicodeSegmentation::graphemes(record.0, true).collect();
        assert_eq!(clusters, vec![record.0]);
    }
}

#[test]
fn builtin_entries_at_known_positions() {
    assert_eq!(CATALOG[0x00], ("💯", "100"));
    assert_eq!(CATALOG[0x6e], ("🔥", "fire"));
    assert_eq!(CATALOG[0xcd], ("🚀", "rocket"));
    assert_eq!(CATALOG[0xde], ("\u{2744}\u{fe0f}", "snowflake"));
    assert_eq!(CATALOG[0xff], ("💤", "zzz"));
}

#[test]
fn builtin_lookup_inverts_builtin_character() {
    for b in 0..=255u8 {
        assert_eq!(Builtin.character(b), CATALOG[b as usize].0);
        assert_eq!(Builtin.name(b), CATALOG[b as usize].1);
        assert_eq!(Builtin.lookup(Builtin.character(b)), Some(b));
    }
}

#[test]
fn builtin_lookup_rejects_what_is_not_in_the_catalog() {
    assert_eq!(Builtin.lookup(""), None);
    assert_eq!(Builtin.lookup("a"), None);
    assert_eq!(Builtin.lookup("fire"), None);
    assert_eq!(Builtin.lookup("😀"), None);
    // Right leading scalar, wrong remainder.
    assert_eq!(Builtin.lookup("🔥🔥"), None);
    assert_eq!(Builtin.lookup("🔥\u{fe0f}"), None);
    assert_eq!(Builtin.lookup("\u{2744}"), None);
    assert_eq!(Builtin.lookup("\u{2744}\u{fe0f}"), Some(0xde));
    assert_eq!(Builtin.lookup("\u{2744}\u{fe0f}\u{fe0f}"), None);
}

#[test]
fn leading_scalar_leads_to_the_byte() {
    for (b, record) in CATALOG.iter().enumerate() {
        let leading = record.0.chars().next().unwrap();
        assert_eq!(position_of_leading(leading), Some(b as u8));
    }
    assert_eq!(position_of_leading('a'), None);
    assert_eq!(position_of_leading('\u{fe0f}'), None);
    assert_eq!(position_of_leading('😀'), None);
}

#[test]
fn same_text_compares_scalar_values() {
    assert!(same_text("", ""));
    assert!(same_text("🔥", "\u{1f525}"));
    assert!(same_text("abc", "abc"));
    assert!(!same_text("abc", "abd"));
    assert!(!same_text("abc", "ab"));
    assert!(!same_text("", "a"));
    assert!(!same_text("\u{2744}", "\u{2744}\u{fe0f}"));
}

#[test]
fn builtin_catalog_holds_the_builtin_records() {
    let catalog = builtin_catalog();
    assert_eq!(catalog.len(), 256);
    for (record, emoji) in CATALOG.iter().zip(catalog.iter()) {
        assert_eq!(emoji.character, record.0);
        assert_eq!(emoji.name, record.1);
    }
}

#[test]
fn table_built_from_builtin_catalog_agrees_with_builtin() {
    let table = Table::build(&builtin_catalog()).unwrap();
    for b in 0..=255u8 {
        assert_eq!(table.character(b), Builtin.character(b));
        assert_eq!(table.name(b), Builtin.name(b));
    }
    for probe in ["🔥", "🚀", "\u{2708}\u{fe0f}", "\u{2708}", "x", "", "🔥🔥"] {
        assert_eq!(table.lookup(probe), Builtin.lookup(probe));
    }
}
