use encoji::builtin::Builtin;
use encoji::codec::{
    concatenate, decode, decode_clusters, encode, encode_custom, encode_to_names, format_each,
    framed,
};
use encoji::emoji::Emoji;
use encoji::table::Table;
use std::cell::RefCell;
use unicode_segmentation::UnicodeSegmentation;

/// A table over CJK ideographs, except that 0x6e is fire and 0xcd is rocket.
fn fire_and_rocket_table() -> Table {
    let mut catalog: Vec<Emoji> = (0..256u32)
        .map(|i| {
            let character = char::from_u32(0x4e00 + i).unwrap().to_string();
            Emoji::new(&character, &format!("n{}", i))
        })
        .collect();
    catalog[0x6e] = Emoji::new("🔥", "fire");
    catalog[0xcd] = Emoji::new("🚀", "rocket");
    Table::build(&catalog).unwrap()
}

#[test]
fn encode_with_fire_and_rocket_table() {
    let table = fire_and_rocket_table();
    assert_eq!(encode(&table, &[0x6e, 0x6e, 0x6e, 0xcd]), "🔥🔥🔥🚀");
}

#[test]
fn decode_with_fire_and_rocket_table() {
    let table = fire_and_rocket_table();
    assert_eq!(decode(&table, "🔥🔥🔥🚀"), vec![0x6e, 0x6e, 0x6e, 0xcd]);
}

#[test]
fn decode_drops_garbage_with_fire_and_rocket_table() {
    let table = fire_and_rocket_table();
    assert_eq!(decode(&table, "🔥🔥🔥xyz🚀"), vec![0x6e, 0x6e, 0x6e, 0xcd]);
}

#[test]
fn custom_table_does_not_know_builtin_emoji() {
    let table = fire_and_rocket_table();
    // 💯 is byte 0 of the built-in table but no entry of this one.
    assert_eq!(decode(&table, "💯🔥"), vec![0x6e]);
    assert_eq!(encode(&table, &[0, 1, 255]), "\u{4e00}\u{4e01}\u{4eff}");
    assert_eq!(decode(&table, "\u{4e00}\u{4e01}\u{4eff}"), vec![0, 1, 255]);
}

#[test]
fn custom_table_round_trip() {
    let table = fire_and_rocket_table();
    let bytes: Vec<u8> = (0..=255u8).chain((0..=255u8).rev()).collect();
    assert_eq!(decode(&table, &encode(&table, &bytes)), bytes);
}

#[test]
fn encode_yields_one_cluster_per_byte() {
    for b in 0..=255u8 {
        let text = encode(&Builtin, &[b]);
        assert_eq!(UnicodeSegmentation::graphemes(text.as_str(), true).count(), 1);
    }
    let bytes: Vec<u8> = (0..=255u8).collect();
    let text = encode(&Builtin, &bytes);
    assert_eq!(UnicodeSegmentation::graphemes(text.as_str(), true).count(), bytes.len());
}

#[test]
fn every_pair_of_bytes_survives_a_round_trip() {
    for first in 0..=255u8 {
        for second in 0..=255u8 {
            let bytes = [first, second];
            assert_eq!(decode(&Builtin, &encode(&Builtin, &bytes)), bytes);
        }
    }
}

#[test]
fn decoded_length_is_bounded_by_cluster_count() {
    let text = "a🔥b\r\n🚀e\u{301}";
    let clusters = UnicodeSegmentation::graphemes(text, true).count();
    assert_eq!(clusters, 6);
    assert_eq!(decode(&Builtin, text), vec![0x6e, 0xcd]);
    // Every cluster recognised: as many bytes as clusters.
    assert_eq!(decode(&Builtin, "🔥🚀💯").len(), 3);
}

#[test]
fn decode_clusters_takes_clusters_as_given() {
    let clusters = ["🔥", "x", "", "🚀", "🔥🚀", "💯"];
    assert_eq!(decode_clusters(&Builtin, &clusters), vec![0x6e, 0xcd, 0x00]);
    assert_eq!(decode_clusters(&Builtin, &[]), Vec::<u8>::new());
    assert_eq!(decode_clusters(&Builtin, &["no", "emoji"]), Vec::<u8>::new());
}

#[test]
fn removing_unrecognised_clusters_changes_nothing() {
    let with_noise = ["a", "🔥", "\r\n", "🔥", "é", "🚀", "z"];
    let without: Vec<&str> =
        with_noise.iter().copied().filter(|cluster| builtin_knows(cluster)).collect();
    assert_eq!(without, vec!["🔥", "🔥", "🚀"]);
    assert_eq!(decode_clusters(&Builtin, &with_noise), decode_clusters(&Builtin, &without));
}

fn builtin_knows(cluster: &str) -> bool {
    encoji::table::Lookup::lookup(&Builtin, cluster).is_some()
}

#[test]
fn decode_joins_scalar_values_into_clusters() {
    // Fire followed by a variation selector is one cluster, and not an emoji of the table;
    // split by scalar values it would have decoded to fire.
    assert_eq!(decode(&Builtin, "🔥\u{fe0f}🚀"), vec![0xcd]);
}

#[test]
fn names_encoding_frames_each_name() {
    assert_eq!(encode_to_names(&Builtin, &[0x6e, 0xcd]), ":fire::rocket:");
    let table = fire_and_rocket_table();
    assert_eq!(encode_to_names(&table, &[0x6e, 0x02, 0xcd]), ":fire::n2::rocket:");
    assert_eq!(encode_to_names(&table, &[]), "");
}

#[test]
fn framed_puts_colons_around() {
    assert_eq!(framed("fire"), ":fire:");
    assert_eq!(framed(""), "::");
    assert_eq!(framed(":"), ":::");
}

#[test]
fn concatenate_joins_in_order() {
    let pieces = vec![String::from("ab"), String::new(), String::from("🔥"), String::from("c")];
    assert_eq!(concatenate(&pieces), "ab🔥c");
    assert_eq!(concatenate(&[]), "");
}

#[test]
fn format_each_keeps_one_piece_per_byte() {
    let pieces = format_each(&Builtin, &[0x6e, 0xcd, 0x6e], &|character: &str, name: &str| {
        format!("{}={}", name, character)
    });
    assert_eq!(pieces, vec!["fire=🔥", "rocket=🚀", "fire=🔥"]);
}

#[test]
fn formatter_is_called_once_per_byte_in_order() {
    let calls: RefCell<Vec<String>> = RefCell::new(Vec::new());
    let text = encode_custom(&Builtin, &[0xcd, 0x6e, 0x6e, 0x00], |character, name| {
        calls.borrow_mut().push(name.to_string());
        character.to_string()
    });
    assert_eq!(text, "🚀🔥🔥💯");
    assert_eq!(calls.into_inner(), vec!["rocket", "fire", "fire", "100"]);
}

#[test]
fn custom_encoding_inserts_nothing_of_its_own() {
    assert_eq!(encode_custom(&Builtin, &[1, 2, 3], |_, _| String::new()), "");
    assert_eq!(encode_custom(&Builtin, &[0x6e, 0xcd], |_, name| name.to_string()), "firerocket");
}

#[test]
fn custom_encoding_with_custom_table() {
    let table = fire_and_rocket_table();
    let text = encode_custom(&table, &[0x6e, 0x00], |character, name| {
        format!("[{}|{}]", character, name)
    });
    assert_eq!(text, "[🔥|fire][\u{4e00}|n0]");
}
