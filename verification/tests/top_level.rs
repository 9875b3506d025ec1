use encoji::{from_string, to_custom, to_names, to_string};

const ALL_EMOJIS: &'static str = "💯🔢👍👎🎱🅰🚡✈️👽🚑⚓️👼💢😠🐜🍎⬇️⬅️➡️⬆️🎨🏧👶🍼🎈🎍🍌‼️📊💈🏀🛀🔋🐻🐝🍺🐞🔔🚴👙🎂🃏🌼📘🚙💙🐗⛵️💣📖📚💥\
        👢💐🎳👦🍞👰💼💔🐛💡🚌👤🌵🍰📆🐫🍬🚗🐈💿🏁🍒🐔🍫🎄👏🎬☁️🍸☕️💻🎊🚧🍪🌽👫🐄🐊👑🔮💘🌀💃🎯💨🌳💫🐕💵🐬🍩🚪💧👂🌍👓👊👣\
        🔥🔦💾🏈🍀🍤🍟🐸🎲💎👻🎁🌐⛳️🍇🍏🎸🔫🍔🔨👜🐣🌿🔆👠🐴⌛️🍨🎃🔑💋🐨🍃🔗🔒📢🔍📫🍁📣📝🎤🔬💰🐒🌙🐁🎥💪🍄🎹🎵👔📰🔕⛔️🚫\
        👃🔩🐙👌👐🐂🐼⛅️🐾🍑🍐🐧🎭☎️🐖🐽💊🍍🍕👇👈👉👆🚓🐩💩📯🍗🙏👛📌🐇🐎📻🐀🎀🍚💍🚀🐓🌹🚨📍🏃🎅📡🎷✂️🐚👕🚿💀😄🐌🐍❄️\
        ⛄️😭⚽️🔉👾💬⭐️🍓😎💦🏊💉🔭🎾💭🚽👅🎩🚥🏆🎺🐢🚦📼🎮🎻⌚️🐋🍷🐺🔧⚡️💤";

#[test]
fn all_bytes_to_emojis() {
    let all_code_points = (0..256)
        .collect::<Vec<_>>()
        .iter()
        .map(|cp| *cp as u8)
        .collect::<Vec<_>>();
    assert_eq!(to_string(&all_code_points[..]), ALL_EMOJIS);
}

#[test]
fn all_emojis_to_bytes() {
    let all_code_points = (0..256)
        .collect::<Vec<_>>()
        .iter()
        .map(|cp| *cp as u8)
        .collect::<Vec<_>>();
    assert_eq!(from_string(&ALL_EMOJIS)[..], all_code_points[..]);
}

#[test]
fn string_to_emojis() {
    let input = "encoji is the way of the future!";
    let output = "🐬🔥🐕🔦🌍👂🔋👂🍤🔋🍟💧🐬🔋💎🌳🎁🔋🔦🍩🔋🍟💧🐬🔋🍩🐸🍟🐸🍀🐬🐻";

    assert_eq!(to_string(input.as_bytes()), output);
}

#[test]
fn emojis_to_string() {
    let input = "🐬🔥🐕🔦🌍👂🔋👂🍤🔋🍟💧🐬🔋💎🌳🎁🔋🔦🍩🔋🍟💧🐬🔋🍩🐸🍟🐸🍀🐬🐻";
    let output = "encoji is the way of the future!";

    assert_eq!(String::from_utf8_lossy(&from_string(&input)[..]), output);
}

#[test]
fn emojis_to_string_ingore_invalid_codepoints() {
    let input = "🐬🔥🐕🔦🌍👂🔋👂🍤🔋🍟💧🐬asdfasdf🔋💎🌳🎁🔋🔦🍩🔋🍟💧🐬🔋🍩🐸🍟🐸🍀🐬🐻\n";
    let output = "encoji is the way of the future!";

    assert_eq!(String::from_utf8_lossy(&from_string(&input)[..]), output);
}

#[test]
fn bytes_to_fire_and_rocket() {
    let bytes = [0x6e, 0x6e, 0x6e, 0xcd];
    assert_eq!(to_string(&bytes), "🔥🔥🔥🚀");
}

#[test]
fn fire_and_rocket_to_bytes() {
    assert_eq!(from_string("🔥🔥🔥🚀"), vec![0x6e, 0x6e, 0x6e, 0xcd]);
}

#[test]
fn garbage_between_emoji_is_dropped() {
    assert_eq!(from_string("🔥🔥🔥xyz🚀"), vec![0x6e, 0x6e, 0x6e, 0xcd]);
}

#[test]
fn names_of_fire_and_rocket() {
    let input = [0x6e, 0x6e, 0x6e, 0xcd];
    assert_eq!(to_names(&input), ":fire::fire::fire::rocket:");
}

#[test]
fn name_of_byte_zero_is_framed_by_colons() {
    assert_eq!(to_names(&[0x00]), ":100:");
    assert_eq!(to_names(&[0x00]), format!(":{}:", encoji::builtin::CATALOG[0].1));
}

#[test]
fn custom_image_tag() {
    let input = [0xde];
    let output = "<img src='/img/snowflake.png' alt='❄️' title='snowflake'>";
    assert_eq!(
        to_custom(&input, |ch, name| {
            format!("<img src='/img/{}.png' alt='{}' title='{}'>", name, ch, name)
        }),
        output
    );
}

#[test]
fn custom_formatter_supplies_its_own_separator() {
    let text = to_custom(&[0x6e, 0xcd, 0x00], |_, name| format!("{},", name));
    assert_eq!(text, "fire,rocket,100,");
}

#[test]
fn empty_input_gives_empty_output() {
    assert_eq!(to_string(&[]), "");
    assert_eq!(to_names(&[]), "");
    assert_eq!(to_custom(&[], |_, _| String::from("x")), "");
    assert_eq!(from_string(""), Vec::<u8>::new());
}

#[test]
fn text_without_emoji_decodes_to_nothing() {
    assert_eq!(from_string("plain text, no emoji\r\n"), Vec::<u8>::new());
}

#[test]
fn every_byte_survives_a_round_trip() {
    for b in 0..=255u8 {
        assert_eq!(from_string(&to_string(&[b])), vec![b]);
    }
}

#[test]
fn buffers_survive_a_round_trip() {
    let mut buffer: Vec<u8> = Vec::new();
    let mut state: u32 = 0x2545_f491;
    for _ in 0..4096 {
        state = state.wrapping_mul(1_664_525).wrapping_add(1_013_904_223);
        buffer.push((state >> 24) as u8);
    }
    assert_eq!(from_string(&to_string(&buffer)), buffer);
    let reversed: Vec<u8> = (0..=255u8).rev().collect();
    assert_eq!(from_string(&to_string(&reversed)), reversed);
}

#[test]
fn interleaved_text_is_transparent_to_decoding() {
    let clean = to_string(b"lenient");
    let mut noisy = String::from("abc ");
    for (i, cluster) in clean.chars().enumerate() {
        noisy.push(cluster);
        noisy.push_str(if i % 2 == 0 { "-" } else { " x1 " });
    }
    assert_eq!(from_string(&noisy), from_string(&clean));
    assert_eq!(from_string(&noisy), b"lenient".to_vec());
}

#[test]
fn emoji_must_match_exactly() {
    // U+2708 alone is not the airplane of the table, which ends in U+FE0F.
    assert_eq!(from_string("\u{2708}"), Vec::<u8>::new());
    assert_eq!(from_string("\u{2708}\u{fe0f}"), vec![7]);
    // The fire of the table has no variation selector.
    assert_eq!(from_string("\u{1f525}\u{fe0f}"), Vec::<u8>::new());
    assert_eq!(from_string("\u{1f525}"), vec![0x6e]);
}
