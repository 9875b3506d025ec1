//! The built-in table: the fixed assignment of one emoji and one name to every byte value.
//!
//! The order of [`CATALOG`] is the wire format. Moving, adding or removing a record changes
//! what every byte encodes to and makes text encoded before undecodable.

use crate::emoji::{distinct_characters, records, Emoji, EmojiSpec};
use crate::table::{lemma_of_wf, Lookup, TableSpec, TABLE_SIZE};
use vstd::prelude::*;
use vstd::string::StrSliceExecFns;

verus! {

/// The built-in catalog: record `b` holds the emoji character and the name of byte `b`.
///
/// Characters are written as escapes because some end in the variation selector U+FE0F,
/// which no editor shows.
pub const CATALOG: [(&'static str, &'static str); 256] = [
    ("\u{1f4af}", "100"),  // 💯
    ("\u{1f522}", "1234"),  // 🔢
    ("\u{1f44d}", "+1"),  // 👍
    ("\u{1f44e}", "-1"),  // 👎
    ("\u{1f3b1}", "8ball"),  // 🎱
    ("\u{1f170}", "a"),  // 🅰
    ("\u{1f6a1}", "aerial_tramway"),  // 🚡
    ("\u{2708}\u{fe0f}", "airplane"),  // ✈
    ("\u{1f47d}", "alien"),  // 👽
    ("\u{1f691}", "ambulance"),  // 🚑
    ("\u{2693}\u{fe0f}", "anchor"),  // ⚓
    ("\u{1f47c}", "angel"),  // 👼
    ("\u{1f4a2}", "anger"),  // 💢
    ("\u{1f620}", "angry"),  // 😠
    ("\u{1f41c}", "ant"),  // 🐜
    ("\u{1f34e}", "apple"),  // 🍎
    ("\u{2b07}\u{fe0f}", "arrow_down"),  // ⬇
    ("\u{2b05}\u{fe0f}", "arrow_left"),  // ⬅
    ("\u{27a1}\u{fe0f}", "arrow_right"),  // ➡
    ("\u{2b06}\u{fe0f}", "arrow_up"),  // ⬆
    ("\u{1f3a8}", "art"),  // 🎨
    ("\u{1f3e7}", "atm"),  // 🏧
    ("\u{1f476}", "baby"),  // 👶
    ("\u{1f37c}", "baby_bottle"),  // 🍼
    ("\u{1f388}", "balloon"),  // 🎈
    ("\u{1f38d}", "bamboo"),  // 🎍
    ("\u{1f34c}", "banana"),  // 🍌
    ("\u{203c}\u{fe0f}", "bangbang"),  // ‼
    ("\u{1f4ca}", "bar_chart"),  // 📊
    ("\u{1f488}", "barber"),  // 💈
    ("\u{1f3c0}", "basketball"),  // 🏀
    ("\u{1f6c0}", "bath"),  // 🛀
    ("\u{1f50b}", "battery"),  // 🔋
    ("\u{1f43b}", "bear"),  // 🐻
    ("\u{1f41d}", "bee"),  // 🐝
    ("\u{1f37a}", "beer"),  // 🍺
    ("\u{1f41e}", "beetle"),  // 🐞
    ("\u{1f514}", "bell"),  // 🔔
    ("\u{1f6b4}", "bicyclist"),  // 🚴
    ("\u{1f459}", "bikini"),  // 👙
    ("\u{1f382}", "birthday"),  // 🎂
    ("\u{1f0cf}", "black_joker"),  // 🃏
    ("\u{1f33c}", "blossom"),  // 🌼
    ("\u{1f4d8}", "blue_book"),  // 📘
    ("\u{1f699}", "blue_car"),  // 🚙
    ("\u{1f499}", "blue_heart"),  // 💙
    ("\u{1f417}", "boar"),  // 🐗
    ("\u{26f5}\u{fe0f}", "boat"),  // ⛵
    ("\u{1f4a3}", "bomb"),  // 💣
    ("\u{1f4d6}", "book"),  // 📖
    ("\u{1f4da}", "books"),  // 📚
    ("\u{1f4a5}", "boom"),  // 💥
    ("\u{1f462}", "boot"),  // 👢
    ("\u{1f490}", "bouquet"),  // 💐
    ("\u{1f3b3}", "bowling"),  // 🎳
    ("\u{1f466}", "boy"),  // 👦
    ("\u{1f35e}", "bread"),  // 🍞
    ("\u{1f470}", "bride_with_veil"),  // 👰
    ("\u{1f4bc}", "briefcase"),  // 💼
    ("\u{1f494}", "broken_heart"),  // 💔
    ("\u{1f41b}", "bug"),  // 🐛
    ("\u{1f4a1}", "bulb"),  // 💡
    ("\u{1f68c}", "bus"),  // 🚌
    ("\u{1f464}", "bust_in_silhouette"),  // 👤
    ("\u{1f335}", "cactus"),  // 🌵
    ("\u{1f370}", "cake"),  // 🍰
    ("\u{1f4c6}", "calendar"),  // 📆
    ("\u{1f42b}", "camel"),  // 🐫
    ("\u{1f36c}", "candy"),  // 🍬
    ("\u{1f697}", "car"),  // 🚗
    ("\u{1f408}", "cat2"),  // 🐈
    ("\u{1f4bf}", "cd"),  // 💿
    ("\u{1f3c1}", "checkered_flag"),  // 🏁
    ("\u{1f352}", "cherries"),  // 🍒
    ("\u{1f414}", "chicken"),  // 🐔
    ("\u{1f36b}", "chocolate_bar"),  // 🍫
    ("\u{1f384}", "christmas_tree"),  // 🎄
    ("\u{1f44f}", "clap"),  // 👏
    ("\u{1f3ac}", "clapper"),  // 🎬
    ("\u{2601}\u{fe0f}", "cloud"),  // ☁
    ("\u{1f378}", "cocktail"),  // 🍸
    ("\u{2615}\u{fe0f}", "coffee"),  // ☕
    ("\u{1f4bb}", "computer"),  // 💻
    ("\u{1f38a}", "confetti_ball"),  // 🎊
    ("\u{1f6a7}", "construction"),  // 🚧
    ("\u{1f36a}", "cookie"),  // 🍪
    ("\u{1f33d}", "corn"),  // 🌽
    ("\u{1f46b}", "couple"),  // 👫
    ("\u{1f404}", "cow2"),  // 🐄
    ("\u{1f40a}", "crocodile"),  // 🐊
    ("\u{1f451}", "crown"),  // 👑
    ("\u{1f52e}", "crystal_ball"),  // 🔮
    ("\u{1f498}", "cupid"),  // 💘
    ("\u{1f300}", "cyclone"),  // 🌀
    ("\u{1f483}", "dancer"),  // 💃
    ("\u{1f3af}", "dart"),  // 🎯
    ("\u{1f4a8}", "dash"),  // 💨
    ("\u{1f333}", "deciduous_tree"),  // 🌳
    ("\u{1f4ab}", "dizzy"),  // 💫
    ("\u{1f415}", "dog2"),  // 🐕
    ("\u{1f4b5}", "dollar"),  // 💵
    ("\u{1f42c}", "dolphin"),  // 🐬
    ("\u{1f369}", "doughnut"),  // 🍩
    ("\u{1f6aa}", "door"),  // 🚪
    ("\u{1f4a7}", "droplet"),  // 💧
    ("\u{1f442}", "ear"),  // 👂
    ("\u{1f30d}", "earth_africa"),  // 🌍
    ("\u{1f453}", "eyeglasses"),  // 👓
    ("\u{1f44a}", "facepunch"),  // 👊
    ("\u{1f463}", "feet"),  // 👣
    ("\u{1f525}", "fire"),  // 🔥
    ("\u{1f526}", "flashlight"),  // 🔦
    ("\u{1f4be}", "floppy_disk"),  // 💾
    ("\u{1f3c8}", "football"),  // 🏈
    ("\u{1f340}", "four_leaf_clover"),  // 🍀
    ("\u{1f364}", "fried_shrimp"),  // 🍤
    ("\u{1f35f}", "fries"),  // 🍟
    ("\u{1f438}", "frog"),  // 🐸
    ("\u{1f3b2}", "game_die"),  // 🎲
    ("\u{1f48e}", "gem"),  // 💎
    ("\u{1f47b}", "ghost"),  // 👻
    ("\u{1f381}", "gift"),  // 🎁
    ("\u{1f310}", "globe_with_meridians"),  // 🌐
    ("\u{26f3}\u{fe0f}", "golf"),  // ⛳
    ("\u{1f347}", "grapes"),  // 🍇
    ("\u{1f34f}", "green_apple"),  // 🍏
    ("\u{1f3b8}", "guitar"),  // 🎸
    ("\u{1f52b}", "gun"),  // 🔫
    ("\u{1f354}", "hamburger"),  // 🍔
    ("\u{1f528}", "hammer"),  // 🔨
    ("\u{1f45c}", "handbag"),  // 👜
    ("\u{1f423}", "hatching_chick"),  // 🐣
    ("\u{1f33f}", "herb"),  // 🌿
    ("\u{1f506}", "high_brightness"),  // 🔆
    ("\u{1f460}", "high_heel"),  // 👠
    ("\u{1f434}", "horse"),  // 🐴
    ("\u{231b}\u{fe0f}", "hourglass"),  // ⌛
    ("\u{1f368}", "ice_cream"),  // 🍨
    ("\u{1f383}", "jack_o_lantern"),  // 🎃
    ("\u{1f511}", "key"),  // 🔑
    ("\u{1f48b}", "kiss"),  // 💋
    ("\u{1f428}", "koala"),  // 🐨
    ("\u{1f343}", "leaves"),  // 🍃
    ("\u{1f517}", "link"),  // 🔗
    ("\u{1f512}", "lock"),  // 🔒
    ("\u{1f4e2}", "loudspeaker"),  // 📢
    ("\u{1f50d}", "mag"),  // 🔍
    ("\u{1f4eb}", "mailbox"),  // 📫
    ("\u{1f341}", "maple_leaf"),  // 🍁
    ("\u{1f4e3}", "mega"),  // 📣
    ("\u{1f4dd}", "memo"),  // 📝
    ("\u{1f3a4}", "microphone"),  // 🎤
    ("\u{1f52c}", "microscope"),  // 🔬
    ("\u{1f4b0}", "moneybag"),  // 💰
    ("\u{1f412}", "monkey"),  // 🐒
    ("\u{1f319}", "moon"),  // 🌙
    ("\u{1f401}", "mouse2"),  // 🐁
    ("\u{1f3a5}", "movie_camera"),  // 🎥
    ("\u{1f4aa}", "muscle"),  // 💪
    ("\u{1f344}", "mushroom"),  // 🍄
    ("\u{1f3b9}", "musical_keyboard"),  // 🎹
    ("\u{1f3b5}", "musical_note"),  // 🎵
    ("\u{1f454}", "necktie"),  // 👔
    ("\u{1f4f0}", "newspaper"),  // 📰
    ("\u{1f515}", "no_bell"),  // 🔕
    ("\u{26d4}\u{fe0f}", "no_entry"),  // ⛔
    ("\u{1f6ab}", "no_entry_sign"),  // 🚫
    ("\u{1f443}", "nose"),  // 👃
    ("\u{1f529}", "nut_and_bolt"),  // 🔩
    ("\u{1f419}", "octopus"),  // 🐙
    ("\u{1f44c}", "ok_hand"),  // 👌
    ("\u{1f450}", "open_hands"),  // 👐
    ("\u{1f402}", "ox"),  // 🐂
    ("\u{1f43c}", "panda_face"),  // 🐼
    ("\u{26c5}\u{fe0f}", "partly_sunny"),  // ⛅
    ("\u{1f43e}", "paw_prints"),  // 🐾
    ("\u{1f351}", "peach"),  // 🍑
    ("\u{1f350}", "pear"),  // 🍐
    ("\u{1f427}", "penguin"),  // 🐧
    ("\u{1f3ad}", "performing_arts"),  // 🎭
    ("\u{260e}\u{fe0f}", "phone"),  // ☎
    ("\u{1f416}", "pig2"),  // 🐖
    ("\u{1f43d}", "pig_nose"),  // 🐽
    ("\u{1f48a}", "pill"),  // 💊
    ("\u{1f34d}", "pineapple"),  // 🍍
    ("\u{1f355}", "pizza"),  // 🍕
    ("\u{1f447}", "point_down"),  // 👇
    ("\u{1f448}", "point_left"),  // 👈
    ("\u{1f449}", "point_right"),  // 👉
    ("\u{1f446}", "point_up_2"),  // 👆
    ("\u{1f693}", "police_car"),  // 🚓
    ("\u{1f429}", "poodle"),  // 🐩
    ("\u{1f4a9}", "poop"),  // 💩
    ("\u{1f4ef}", "postal_horn"),  // 📯
    ("\u{1f357}", "poultry_leg"),  // 🍗
    ("\u{1f64f}", "pray"),  // 🙏
    ("\u{1f45b}", "purse"),  // 👛
    ("\u{1f4cc}", "pushpin"),  // 📌
    ("\u{1f407}", "rabbit2"),  // 🐇
    ("\u{1f40e}", "racehorse"),  // 🐎
    ("\u{1f4fb}", "radio"),  // 📻
    ("\u{1f400}", "rat"),  // 🐀
    ("\u{1f380}", "ribbon"),  // 🎀
    ("\u{1f35a}", "rice"),  // 🍚
    ("\u{1f48d}", "ring"),  // 💍
    ("\u{1f680}", "rocket"),  // 🚀
    ("\u{1f413}", "rooster"),  // 🐓
    ("\u{1f339}", "rose"),  // 🌹
    ("\u{1f6a8}", "rotating_light"),  // 🚨
    ("\u{1f4cd}", "round_pushpin"),  // 📍
    ("\u{1f3c3}", "runner"),  // 🏃
    ("\u{1f385}", "santa"),  // 🎅
    ("\u{1f4e1}", "satellite"),  // 📡
    ("\u{1f3b7}", "saxophone"),  // 🎷
    ("\u{2702}\u{fe0f}", "scissors"),  // ✂
    ("\u{1f41a}", "shell"),  // 🐚
    ("\u{1f455}", "shirt"),  // 👕
    ("\u{1f6bf}", "shower"),  // 🚿
    ("\u{1f480}", "skull"),  // 💀
    ("\u{1f604}", "smile"),  // 😄
    ("\u{1f40c}", "snail"),  // 🐌
    ("\u{1f40d}", "snake"),  // 🐍
    ("\u{2744}\u{fe0f}", "snowflake"),  // ❄
    ("\u{26c4}\u{fe0f}", "snowman"),  // ⛄
    ("\u{1f62d}", "sob"),  // 😭
    ("\u{26bd}\u{fe0f}", "soccer"),  // ⚽
    ("\u{1f509}", "sound"),  // 🔉
    ("\u{1f47e}", "space_invader"),  // 👾
    ("\u{1f4ac}", "speech_balloon"),  // 💬
    ("\u{2b50}\u{fe0f}", "star"),  // ⭐
    ("\u{1f353}", "strawberry"),  // 🍓
    ("\u{1f60e}", "sunglasses"),  // 😎
    ("\u{1f4a6}", "sweat_drops"),  // 💦
    ("\u{1f3ca}", "swimmer"),  // 🏊
    ("\u{1f489}", "syringe"),  // 💉
    ("\u{1f52d}", "telescope"),  // 🔭
    ("\u{1f3be}", "tennis"),  // 🎾
    ("\u{1f4ad}", "thought_balloon"),  // 💭
    ("\u{1f6bd}", "toilet"),  // 🚽
    ("\u{1f445}", "tongue"),  // 👅
    ("\u{1f3a9}", "tophat"),  // 🎩
    ("\u{1f6a5}", "traffic_light"),  // 🚥
    ("\u{1f3c6}", "trophy"),  // 🏆
    ("\u{1f3ba}", "trumpet"),  // 🎺
    ("\u{1f422}", "turtle"),  // 🐢
    ("\u{1f6a6}", "vertical_traffic_light"),  // 🚦
    ("\u{1f4fc}", "vhs"),  // 📼
    ("\u{1f3ae}", "video_game"),  // 🎮
    ("\u{1f3bb}", "violin"),  // 🎻
    ("\u{231a}\u{fe0f}", "watch"),  // ⌚
    ("\u{1f40b}", "whale2"),  // 🐋
    ("\u{1f377}", "wine_glass"),  // 🍷
    ("\u{1f43a}", "wolf"),  // 🐺
    ("\u{1f527}", "wrench"),  // 🔧
    ("\u{26a1}\u{fe0f}", "zap"),  // ⚡
    ("\u{1f4a4}", "zzz"),  // 💤
];

/// The records of the built-in catalog, in order.
pub open spec fn builtin_records() -> Seq<EmojiSpec> {
    Seq::new(
        TABLE_SIZE as nat,
        |b: int| EmojiSpec { character: CATALOG[b].0@, name: CATALOG[b].1@ },
    )
}

/// The built-in table.
pub open spec fn builtin() -> TableSpec {
    TableSpec::of(builtin_records())
}

/// The byte whose built-in emoji begins with `scalar`, if there is one.
///
/// The first scalar value of an emoji of [`CATALOG`] identifies it: no two begin alike.
pub open spec fn leading_position(scalar: char) -> Option<u8> {
    match scalar {
        '\u{1f4af}' => Some(0),
        '\u{1f522}' => Some(1),
        '\u{1f44d}' => Some(2),
        '\u{1f44e}' => Some(3),
        '\u{1f3b1}' => Some(4),
        '\u{1f170}' => Some(5),
        '\u{1f6a1}' => Some(6),
        '\u{2708}' => Some(7),
        '\u{1f47d}' => Some(8),
        '\u{1f691}' => Some(9),
        '\u{2693}' => Some(10),
        '\u{1f47c}' => Some(11),
        '\u{1f4a2}' => Some(12),
        '\u{1f620}' => Some(13),
        '\u{1f41c}' => Some(14),
        '\u{1f34e}' => Some(15),
        '\u{2b07}' => Some(16),
        '\u{2b05}' => Some(17),
        '\u{27a1}' => Some(18),
        '\u{2b06}' => Some(19),
        '\u{1f3a8}' => Some(20),
        '\u{1f3e7}' => Some(21),
        '\u{1f476}' => Some(22),
        '\u{1f37c}' => Some(23),
        '\u{1f388}' => Some(24),
        '\u{1f38d}' => Some(25),
        '\u{1f34c}' => Some(26),
        '\u{203c}' => Some(27),
        '\u{1f4ca}' => Some(28),
        '\u{1f488}' => Some(29),
        '\u{1f3c0}' => Some(30),
        '\u{1f6c0}' => Some(31),
        '\u{1f50b}' => Some(32),
        '\u{1f43b}' => Some(33),
        '\u{1f41d}' => Some(34),
        '\u{1f37a}' => Some(35),
        '\u{1f41e}' => Some(36),
        '\u{1f514}' => Some(37),
        '\u{1f6b4}' => Some(38),
        '\u{1f459}' => Some(39),
        '\u{1f382}' => Some(40),
        '\u{1f0cf}' => Some(41),
        '\u{1f33c}' => Some(42),
        '\u{1f4d8}' => Some(43),
        '\u{1f699}' => Some(44),
        '\u{1f499}' => Some(45),
        '\u{1f417}' => Some(46),
        '\u{26f5}' => Some(47),
        '\u{1f4a3}' => Some(48),
        '\u{1f4d6}' => Some(49),
        '\u{1f4da}' => Some(50),
        '\u{1f4a5}' => Some(51),
        '\u{1f462}' => Some(52),
        '\u{1f490}' => Some(53),
        '\u{1f3b3}' => Some(54),
        '\u{1f466}' => Some(55),
        '\u{1f35e}' => Some(56),
        '\u{1f470}' => Some(57),
        '\u{1f4bc}' => Some(58),
        '\u{1f494}' => Some(59),
        '\u{1f41b}' => Some(60),
        '\u{1f4a1}' => Some(61),
        '\u{1f68c}' => Some(62),
        '\u{1f464}' => Some(63),
        '\u{1f335}' => Some(64),
        '\u{1f370}' => Some(65),
        '\u{1f4c6}' => Some(66),
        '\u{1f42b}' => Some(67),
        '\u{1f36c}' => Some(68),
        '\u{1f697}' => Some(69),
        '\u{1f408}' => Some(70),
        '\u{1f4bf}' => Some(71),
        '\u{1f3c1}' => Some(72),
        '\u{1f352}' => Some(73),
        '\u{1f414}' => Some(74),
        '\u{1f36b}' => Some(75),
        '\u{1f384}' => Some(76),
        '\u{1f44f}' => Some(77),
        '\u{1f3ac}' => Some(78),
        '\u{2601}' => Some(79),
        '\u{1f378}' => Some(80),
        '\u{2615}' => Some(81),
        '\u{1f4bb}' => Some(82),
        '\u{1f38a}' => Some(83),
        '\u{1f6a7}' => Some(84),
        '\u{1f36a}' => Some(85),
        '\u{1f33d}' => Some(86),
        '\u{1f46b}' => Some(87),
        '\u{1f404}' => Some(88),
        '\u{1f40a}' => Some(89),
        '\u{1f451}' => Some(90),
        '\u{1f52e}' => Some(91),
        '\u{1f498}' => Some(92),
        '\u{1f300}' => Some(93),
        '\u{1f483}' => Some(94),
        '\u{1f3af}' => Some(95),
        '\u{1f4a8}' => Some(96),
        '\u{1f333}' => Some(97),
        '\u{1f4ab}' => Some(98),
        '\u{1f415}' => Some(99),
        '\u{1f4b5}' => Some(100),
        '\u{1f42c}' => Some(101),
        '\u{1f369}' => Some(102),
        '\u{1f6aa}' => Some(103),
        '\u{1f4a7}' => Some(104),
        '\u{1f442}' => Some(105),
        '\u{1f30d}' => Some(106),
        '\u{1f453}' => Some(107),
        '\u{1f44a}' => Some(108),
        '\u{1f463}' => Some(109),
        '\u{1f525}' => Some(110),
        '\u{1f526}' => Some(111),
        '\u{1f4be}' => Some(112),
        '\u{1f3c8}' => Some(113),
        '\u{1f340}' => Some(114),
        '\u{1f364}' => Some(115),
        '\u{1f35f}' => Some(116),
        '\u{1f438}' => Some(117),
        '\u{1f3b2}' => Some(118),
        '\u{1f48e}' => Some(119),
        '\u{1f47b}' => Some(120),
        '\u{1f381}' => Some(121),
        '\u{1f310}' => Some(122),
        '\u{26f3}' => Some(123),
        '\u{1f347}' => Some(124),
        '\u{1f34f}' => Some(125),
        '\u{1f3b8}' => Some(126),
        '\u{1f52b}' => Some(127),
        '\u{1f354}' => Some(128),
        '\u{1f528}' => Some(129),
        '\u{1f45c}' => Some(130),
        '\u{1f423}' => Some(131),
        '\u{1f33f}' => Some(132),
        '\u{1f506}' => Some(133),
        '\u{1f460}' => Some(134),
        '\u{1f434}' => Some(135),
        '\u{231b}' => Some(136),
        '\u{1f368}' => Some(137),
        '\u{1f383}' => Some(138),
        '\u{1f511}' => Some(139),
        '\u{1f48b}' => Some(140),
        '\u{1f428}' => Some(141),
        '\u{1f343}' => Some(142),
        '\u{1f517}' => Some(143),
        '\u{1f512}' => Some(144),
        '\u{1f4e2}' => Some(145),
        '\u{1f50d}' => Some(146),
        '\u{1f4eb}' => Some(147),
        '\u{1f341}' => Some(148),
        '\u{1f4e3}' => Some(149),
        '\u{1f4dd}' => Some(150),
        '\u{1f3a4}' => Some(151),
        '\u{1f52c}' => Some(152),
        '\u{1f4b0}' => Some(153),
        '\u{1f412}' => Some(154),
        '\u{1f319}' => Some(155),
        '\u{1f401}' => Some(156),
        '\u{1f3a5}' => Some(157),
        '\u{1f4aa}' => Some(158),
        '\u{1f344}' => Some(159),
        '\u{1f3b9}' => Some(160),
        '\u{1f3b5}' => Some(161),
        '\u{1f454}' => Some(162),
        '\u{1f4f0}' => Some(163),
        '\u{1f515}' => Some(164),
        '\u{26d4}' => Some(165),
        '\u{1f6ab}' => Some(166),
        '\u{1f443}' => Some(167),
        '\u{1f529}' => Some(168),
        '\u{1f419}' => Some(169),
        '\u{1f44c}' => Some(170),
        '\u{1f450}' => Some(171),
        '\u{1f402}' => Some(172),
        '\u{1f43c}' => Some(173),
        '\u{26c5}' => Some(174),
        '\u{1f43e}' => Some(175),
        '\u{1f351}' => Some(176),
        '\u{1f350}' => Some(177),
        '\u{1f427}' => Some(178),
        '\u{1f3ad}' => Some(179),
        '\u{260e}' => Some(180),
        '\u{1f416}' => Some(181),
        '\u{1f43d}' => Some(182),
        '\u{1f48a}' => Some(183),
        '\u{1f34d}' => Some(184),
        '\u{1f355}' => Some(185),
        '\u{1f447}' => Some(186),
        '\u{1f448}' => Some(187),
        '\u{1f449}' => Some(188),
        '\u{1f446}' => Some(189),
        '\u{1f693}' => Some(190),
        '\u{1f429}' => Some(191),
        '\u{1f4a9}' => Some(192),
        '\u{1f4ef}' => Some(193),
        '\u{1f357}' => Some(194),
        '\u{1f64f}' => Some(195),
        '\u{1f45b}' => Some(196),
        '\u{1f4cc}' => Some(197),
        '\u{1f407}' => Some(198),
        '\u{1f40e}' => Some(199),
        '\u{1f4fb}' => Some(200),
        '\u{1f400}' => Some(201),
        '\u{1f380}' => Some(202),
        '\u{1f35a}' => Some(203),
        '\u{1f48d}' => Some(204),
        '\u{1f680}' => Some(205),
        '\u{1f413}' => Some(206),
        '\u{1f339}' => Some(207),
        '\u{1f6a8}' => Some(208),
        '\u{1f4cd}' => Some(209),
        '\u{1f3c3}' => Some(210),
        '\u{1f385}' => Some(211),
        '\u{1f4e1}' => Some(212),
        '\u{1f3b7}' => Some(213),
        '\u{2702}' => Some(214),
        '\u{1f41a}' => Some(215),
        '\u{1f455}' => Some(216),
        '\u{1f6bf}' => Some(217),
        '\u{1f480}' => Some(218),
        '\u{1f604}' => Some(219),
        '\u{1f40c}' => Some(220),
        '\u{1f40d}' => Some(221),
        '\u{2744}' => Some(222),
        '\u{26c4}' => Some(223),
        '\u{1f62d}' => Some(224),
        '\u{26bd}' => Some(225),
        '\u{1f509}' => Some(226),
        '\u{1f47e}' => Some(227),
        '\u{1f4ac}' => Some(228),
        '\u{2b50}' => Some(229),
        '\u{1f353}' => Some(230),
        '\u{1f60e}' => Some(231),
        '\u{1f4a6}' => Some(232),
        '\u{1f3ca}' => Some(233),
        '\u{1f489}' => Some(234),
        '\u{1f52d}' => Some(235),
        '\u{1f3be}' => Some(236),
        '\u{1f4ad}' => Some(237),
        '\u{1f6bd}' => Some(238),
        '\u{1f445}' => Some(239),
        '\u{1f3a9}' => Some(240),
        '\u{1f6a5}' => Some(241),
        '\u{1f3c6}' => Some(242),
        '\u{1f3ba}' => Some(243),
        '\u{1f422}' => Some(244),
        '\u{1f6a6}' => Some(245),
        '\u{1f4fc}' => Some(246),
        '\u{1f3ae}' => Some(247),
        '\u{1f3bb}' => Some(248),
        '\u{231a}' => Some(249),
        '\u{1f40b}' => Some(250),
        '\u{1f377}' => Some(251),
        '\u{1f43a}' => Some(252),
        '\u{1f527}' => Some(253),
        '\u{26a1}' => Some(254),
        '\u{1f4a4}' => Some(255),
        _ => None,
    }
}

/// Computes [`leading_position`].
pub fn position_of_leading(scalar: char) -> (found: Option<u8>)
    ensures
        found == leading_position(scalar),
{
    match scalar {
        '\u{1f4af}' => Some(0),
        '\u{1f522}' => Some(1),
        '\u{1f44d}' => Some(2),
        '\u{1f44e}' => Some(3),
        '\u{1f3b1}' => Some(4),
        '\u{1f170}' => Some(5),
        '\u{1f6a1}' => Some(6),
        '\u{2708}' => Some(7),
        '\u{1f47d}' => Some(8),
        '\u{1f691}' => Some(9),
        '\u{2693}' => Some(10),
        '\u{1f47c}' => Some(11),
        '\u{1f4a2}' => Some(12),
        '\u{1f620}' => Some(13),
        '\u{1f41c}' => Some(14),
        '\u{1f34e}' => Some(15),
        '\u{2b07}' => Some(16),
        '\u{2b05}' => Some(17),
        '\u{27a1}' => Some(18),
        '\u{2b06}' => Some(19),
        '\u{1f3a8}' => Some(20),
        '\u{1f3e7}' => Some(21),
        '\u{1f476}' => Some(22),
        '\u{1f37c}' => Some(23),
        '\u{1f388}' => Some(24),
        '\u{1f38d}' => Some(25),
        '\u{1f34c}' => Some(26),
        '\u{203c}' => Some(27),
        '\u{1f4ca}' => Some(28),
        '\u{1f488}' => Some(29),
        '\u{1f3c0}' => Some(30),
        '\u{1f6c0}' => Some(31),
        '\u{1f50b}' => Some(32),
        '\u{1f43b}' => Some(33),
        '\u{1f41d}' => Some(34),
        '\u{1f37a}' => Some(35),
        '\u{1f41e}' => Some(36),
        '\u{1f514}' => Some(37),
        '\u{1f6b4}' => Some(38),
        '\u{1f459}' => Some(39),
        '\u{1f382}' => Some(40),
        '\u{1f0cf}' => Some(41),
        '\u{1f33c}' => Some(42),
        '\u{1f4d8}' => Some(43),
        '\u{1f699}' => Some(44),
        '\u{1f499}' => Some(45),
        '\u{1f417}' => Some(46),
        '\u{26f5}' => Some(47),
        '\u{1f4a3}' => Some(48),
        '\u{1f4d6}' => Some(49),
        '\u{1f4da}' => Some(50),
        '\u{1f4a5}' => Some(51),
        '\u{1f462}' => Some(52),
        '\u{1f490}' => Some(53),
        '\u{1f3b3}' => Some(54),
        '\u{1f466}' => Some(55),
        '\u{1f35e}' => Some(56),
        '\u{1f470}' => Some(57),
        '\u{1f4bc}' => Some(58),
        '\u{1f494}' => Some(59),
        '\u{1f41b}' => Some(60),
        '\u{1f4a1}' => Some(61),
        '\u{1f68c}' => Some(62),
        '\u{1f464}' => Some(63),
        '\u{1f335}' => Some(64),
        '\u{1f370}' => Some(65),
        '\u{1f4c6}' => Some(66),
        '\u{1f42b}' => Some(67),
        '\u{1f36c}' => Some(68),
        '\u{1f697}' => Some(69),
        '\u{1f408}' => Some(70),
        '\u{1f4bf}' => Some(71),
        '\u{1f3c1}' => Some(72),
        '\u{1f352}' => Some(73),
        '\u{1f414}' => Some(74),
        '\u{1f36b}' => Some(75),
        '\u{1f384}' => Some(76),
        '\u{1f44f}' => Some(77),
        '\u{1f3ac}' => Some(78),
        '\u{2601}' => Some(79),
        '\u{1f378}' => Some(80),
        '\u{2615}' => Some(81),
        '\u{1f4bb}' => Some(82),
        '\u{1f38a}' => Some(83),
        '\u{1f6a7}' => Some(84),
        '\u{1f36a}' => Some(85),
        '\u{1f33d}' => Some(86),
        '\u{1f46b}' => Some(87),
        '\u{1f404}' => Some(88),
        '\u{1f40a}' => Some(89),
        '\u{1f451}' => Some(90),
        '\u{1f52e}' => Some(91),
        '\u{1f498}' => Some(92),
        '\u{1f300}' => Some(93),
        '\u{1f483}' => Some(94),
        '\u{1f3af}' => Some(95),
        '\u{1f4a8}' => Some(96),
        '\u{1f333}' => Some(97),
        '\u{1f4ab}' => Some(98),
        '\u{1f415}' => Some(99),
        '\u{1f4b5}' => Some(100),
        '\u{1f42c}' => Some(101),
        '\u{1f369}' => Some(102),
        '\u{1f6aa}' => Some(103),
        '\u{1f4a7}' => Some(104),
        '\u{1f442}' => Some(105),
        '\u{1f30d}' => Some(106),
        '\u{1f453}' => Some(107),
        '\u{1f44a}' => Some(108),
        '\u{1f463}' => Some(109),
        '\u{1f525}' => Some(110),
        '\u{1f526}' => Some(111),
        '\u{1f4be}' => Some(112),
        '\u{1f3c8}' => Some(113),
        '\u{1f340}' => Some(114),
        '\u{1f364}' => Some(115),
        '\u{1f35f}' => Some(116),
        '\u{1f438}' => Some(117),
        '\u{1f3b2}' => Some(118),
        '\u{1f48e}' => Some(119),
        '\u{1f47b}' => Some(120),
        '\u{1f381}' => Some(121),
        '\u{1f310}' => Some(122),
        '\u{26f3}' => Some(123),
        '\u{1f347}' => Some(124),
        '\u{1f34f}' => Some(125),
        '\u{1f3b8}' => Some(126),
        '\u{1f52b}' => Some(127),
        '\u{1f354}' => Some(128),
        '\u{1f528}' => Some(129),
        '\u{1f45c}' => Some(130),
        '\u{1f423}' => Some(131),
        '\u{1f33f}' => Some(132),
        '\u{1f506}' => Some(133),
        '\u{1f460}' => Some(134),
        '\u{1f434}' => Some(135),
        '\u{231b}' => Some(136),
        '\u{1f368}' => Some(137),
        '\u{1f383}' => Some(138),
        '\u{1f511}' => Some(139),
        '\u{1f48b}' => Some(140),
        '\u{1f428}' => Some(141),
        '\u{1f343}' => Some(142),
        '\u{1f517}' => Some(143),
        '\u{1f512}' => Some(144),
        '\u{1f4e2}' => Some(145),
        '\u{1f50d}' => Some(146),
        '\u{1f4eb}' => Some(147),
        '\u{1f341}' => Some(148),
        '\u{1f4e3}' => Some(149),
        '\u{1f4dd}' => Some(150),
        '\u{1f3a4}' => Some(151),
        '\u{1f52c}' => Some(152),
        '\u{1f4b0}' => Some(153),
        '\u{1f412}' => Some(154),
        '\u{1f319}' => Some(155),
        '\u{1f401}' => Some(156),
        '\u{1f3a5}' => Some(157),
        '\u{1f4aa}' => Some(158),
        '\u{1f344}' => Some(159),
        '\u{1f3b9}' => Some(160),
        '\u{1f3b5}' => Some(161),
        '\u{1f454}' => Some(162),
        '\u{1f4f0}' => Some(163),
        '\u{1f515}' => Some(164),
        '\u{26d4}' => Some(165),
        '\u{1f6ab}' => Some(166),
        '\u{1f443}' => Some(167),
        '\u{1f529}' => Some(168),
        '\u{1f419}' => Some(169),
        '\u{1f44c}' => Some(170),
        '\u{1f450}' => Some(171),
        '\u{1f402}' => Some(172),
        '\u{1f43c}' => Some(173),
        '\u{26c5}' => Some(174),
        '\u{1f43e}' => Some(175),
        '\u{1f351}' => Some(176),
        '\u{1f350}' => Some(177),
        '\u{1f427}' => Some(178),
        '\u{1f3ad}' => Some(179),
        '\u{260e}' => Some(180),
        '\u{1f416}' => Some(181),
        '\u{1f43d}' => Some(182),
        '\u{1f48a}' => Some(183),
        '\u{1f34d}' => Some(184),
        '\u{1f355}' => Some(185),
        '\u{1f447}' => Some(186),
        '\u{1f448}' => Some(187),
        '\u{1f449}' => Some(188),
        '\u{1f446}' => Some(189),
        '\u{1f693}' => Some(190),
        '\u{1f429}' => Some(191),
        '\u{1f4a9}' => Some(192),
        '\u{1f4ef}' => Some(193),
        '\u{1f357}' => Some(194),
        '\u{1f64f}' => Some(195),
        '\u{1f45b}' => Some(196),
        '\u{1f4cc}' => Some(197),
        '\u{1f407}' => Some(198),
        '\u{1f40e}' => Some(199),
        '\u{1f4fb}' => Some(200),
        '\u{1f400}' => Some(201),
        '\u{1f380}' => Some(202),
        '\u{1f35a}' => Some(203),
        '\u{1f48d}' => Some(204),
        '\u{1f680}' => Some(205),
        '\u{1f413}' => Some(206),
        '\u{1f339}' => Some(207),
        '\u{1f6a8}' => Some(208),
        '\u{1f4cd}' => Some(209),
        '\u{1f3c3}' => Some(210),
        '\u{1f385}' => Some(211),
        '\u{1f4e1}' => Some(212),
        '\u{1f3b7}' => Some(213),
        '\u{2702}' => Some(214),
        '\u{1f41a}' => Some(215),
        '\u{1f455}' => Some(216),
        '\u{1f6bf}' => Some(217),
        '\u{1f480}' => Some(218),
        '\u{1f604}' => Some(219),
        '\u{1f40c}' => Some(220),
        '\u{1f40d}' => Some(221),
        '\u{2744}' => Some(222),
        '\u{26c4}' => Some(223),
        '\u{1f62d}' => Some(224),
        '\u{26bd}' => Some(225),
        '\u{1f509}' => Some(226),
        '\u{1f47e}' => Some(227),
        '\u{1f4ac}' => Some(228),
        '\u{2b50}' => Some(229),
        '\u{1f353}' => Some(230),
        '\u{1f60e}' => Some(231),
        '\u{1f4a6}' => Some(232),
        '\u{1f3ca}' => Some(233),
        '\u{1f489}' => Some(234),
        '\u{1f52d}' => Some(235),
        '\u{1f3be}' => Some(236),
        '\u{1f4ad}' => Some(237),
        '\u{1f6bd}' => Some(238),
        '\u{1f445}' => Some(239),
        '\u{1f3a9}' => Some(240),
        '\u{1f6a5}' => Some(241),
        '\u{1f3c6}' => Some(242),
        '\u{1f3ba}' => Some(243),
        '\u{1f422}' => Some(244),
        '\u{1f6a6}' => Some(245),
        '\u{1f4fc}' => Some(246),
        '\u{1f3ae}' => Some(247),
        '\u{1f3bb}' => Some(248),
        '\u{231a}' => Some(249),
        '\u{1f40b}' => Some(250),
        '\u{1f377}' => Some(251),
        '\u{1f43a}' => Some(252),
        '\u{1f527}' => Some(253),
        '\u{26a1}' => Some(254),
        '\u{1f4a4}' => Some(255),
        _ => None,
    }
}

/// [`lemma_leading`] for the first quarter of the catalog.
#[verifier::rlimit(40)]
proof fn lemma_leading_quarter_1(b: u8)
    requires
        0 <= b < 64,
    ensures
        CATALOG[b as int].0@.len() >= 1,
        leading_position(CATALOG[b as int].0@[0]) == Some(b),
{
    reveal_strlit("\u{1f4af}");
    reveal_strlit("\u{1f522}");
    reveal_strlit("\u{1f44d}");
    reveal_strlit("\u{1f44e}");
    reveal_strlit("\u{1f3b1}");
    reveal_strlit("\u{1f170}");
    reveal_strlit("\u{1f6a1}");
    reveal_strlit("\u{2708}\u{fe0f}");
    reveal_strlit("\u{1f47d}");
    reveal_strlit("\u{1f691}");
    reveal_strlit("\u{2693}\u{fe0f}");
    reveal_strlit("\u{1f47c}");
    reveal_strlit("\u{1f4a2}");
    reveal_strlit("\u{1f620}");
    reveal_strlit("\u{1f41c}");
    reveal_strlit("\u{1f34e}");
    reveal_strlit("\u{2b07}\u{fe0f}");
    reveal_strlit("\u{2b05}\u{fe0f}");
    reveal_strlit("\u{27a1}\u{fe0f}");
    reveal_strlit("\u{2b06}\u{fe0f}");
    reveal_strlit("\u{1f3a8}");
    reveal_strlit("\u{1f3e7}");
    reveal_strlit("\u{1f476}");
    reveal_strlit("\u{1f37c}");
    reveal_strlit("\u{1f388}");
    reveal_strlit("\u{1f38d}");
    reveal_strlit("\u{1f34c}");
    reveal_strlit("\u{203c}\u{fe0f}");
    reveal_strlit("\u{1f4ca}");
    reveal_strlit("\u{1f488}");
    reveal_strlit("\u{1f3c0}");
    reveal_strlit("\u{1f6c0}");
    reveal_strlit("\u{1f50b}");
    reveal_strlit("\u{1f43b}");
    reveal_strlit("\u{1f41d}");
    reveal_strlit("\u{1f37a}");
    reveal_strlit("\u{1f41e}");
    reveal_strlit("\u{1f514}");
    reveal_strlit("\u{1f6b4}");
    reveal_strlit("\u{1f459}");
    reveal_strlit("\u{1f382}");
    reveal_strlit("\u{1f0cf}");
    reveal_strlit("\u{1f33c}");
    reveal_strlit("\u{1f4d8}");
    reveal_strlit("\u{1f699}");
    reveal_strlit("\u{1f499}");
    reveal_strlit("\u{1f417}");
    reveal_strlit("\u{26f5}\u{fe0f}");
    reveal_strlit("\u{1f4a3}");
    reveal_strlit("\u{1f4d6}");
    reveal_strlit("\u{1f4da}");
    reveal_strlit("\u{1f4a5}");
    reveal_strlit("\u{1f462}");
    reveal_strlit("\u{1f490}");
    reveal_strlit("\u{1f3b3}");
    reveal_strlit("\u{1f466}");
    reveal_strlit("\u{1f35e}");
    reveal_strlit("\u{1f470}");
    reveal_strlit("\u{1f4bc}");
    reveal_strlit("\u{1f494}");
    reveal_strlit("\u{1f41b}");
    reveal_strlit("\u{1f4a1}");
    reveal_strlit("\u{1f68c}");
    reveal_strlit("\u{1f464}");
}

/// [`lemma_leading`] for the second quarter of the catalog.
#[verifier::rlimit(40)]
proof fn lemma_leading_quarter_2(b: u8)
    requires
        64 <= b < 128,
    ensures
        CATALOG[b as int].0@.len() >= 1,
        leading_position(CATALOG[b as int].0@[0]) == Some(b),
{
    reveal_strlit("\u{1f335}");
    reveal_strlit("\u{1f370}");
    reveal_strlit("\u{1f4c6}");
    reveal_strlit("\u{1f42b}");
    reveal_strlit("\u{1f36c}");
    reveal_strlit("\u{1f697}");
    reveal_strlit("\u{1f408}");
    reveal_strlit("\u{1f4bf}");
    reveal_strlit("\u{1f3c1}");
    reveal_strlit("\u{1f352}");
    reveal_strlit("\u{1f414}");
    reveal_strlit("\u{1f36b}");
    reveal_strlit("\u{1f384}");
    reveal_strlit("\u{1f44f}");
    reveal_strlit("\u{1f3ac}");
    reveal_strlit("\u{2601}\u{fe0f}");
    reveal_strlit("\u{1f378}");
    reveal_strlit("\u{2615}\u{fe0f}");
    reveal_strlit("\u{1f4bb}");
    reveal_strlit("\u{1f38a}");
    reveal_strlit("\u{1f6a7}");
    reveal_strlit("\u{1f36a}");
    reveal_strlit("\u{1f33d}");
    reveal_strlit("\u{1f46b}");
    reveal_strlit("\u{1f404}");
    reveal_strlit("\u{1f40a}");
    reveal_strlit("\u{1f451}");
    reveal_strlit("\u{1f52e}");
    reveal_strlit("\u{1f498}");
    reveal_strlit("\u{1f300}");
    reveal_strlit("\u{1f483}");
    reveal_strlit("\u{1f3af}");
    reveal_strlit("\u{1f4a8}");
    reveal_strlit("\u{1f333}");
    reveal_strlit("\u{1f4ab}");
    reveal_strlit("\u{1f415}");
    reveal_strlit("\u{1f4b5}");
    reveal_strlit("\u{1f42c}");
    reveal_strlit("\u{1f369}");
    reveal_strlit("\u{1f6aa}");
    reveal_strlit("\u{1f4a7}");
    reveal_strlit("\u{1f442}");
    reveal_strlit("\u{1f30d}");
    reveal_strlit("\u{1f453}");
    reveal_strlit("\u{1f44a}");
    reveal_strlit("\u{1f463}");
    reveal_strlit("\u{1f525}");
    reveal_strlit("\u{1f526}");
    reveal_strlit("\u{1f4be}");
    reveal_strlit("\u{1f3c8}");
    reveal_strlit("\u{1f340}");
    reveal_strlit("\u{1f364}");
    reveal_strlit("\u{1f35f}");
    reveal_strlit("\u{1f438}");
    reveal_strlit("\u{1f3b2}");
    reveal_strlit("\u{1f48e}");
    reveal_strlit("\u{1f47b}");
    reveal_strlit("\u{1f381}");
    reveal_strlit("\u{1f310}");
    reveal_strlit("\u{26f3}\u{fe0f}");
    reveal_strlit("\u{1f347}");
    reveal_strlit("\u{1f34f}");
    reveal_strlit("\u{1f3b8}");
    reveal_strlit("\u{1f52b}");
}

/// [`lemma_leading`] for the third quarter of the catalog.
#[verifier::rlimit(40)]
proof fn lemma_leading_quarter_3(b: u8)
    requires
        128 <= b < 192,
    ensures
        CATALOG[b as int].0@.len() >= 1,
        leading_position(CATALOG[b as int].0@[0]) == Some(b),
{
    reveal_strlit("\u{1f354}");
    reveal_strlit("\u{1f528}");
    reveal_strlit("\u{1f45c}");
    reveal_strlit("\u{1f423}");
    reveal_strlit("\u{1f33f}");
    reveal_strlit("\u{1f506}");
    reveal_strlit("\u{1f460}");
    reveal_strlit("\u{1f434}");
    reveal_strlit("\u{231b}\u{fe0f}");
    reveal_strlit("\u{1f368}");
    reveal_strlit("\u{1f383}");
    reveal_strlit("\u{1f511}");
    reveal_strlit("\u{1f48b}");
    reveal_strlit("\u{1f428}");
    reveal_strlit("\u{1f343}");
    reveal_strlit("\u{1f517}");
    reveal_strlit("\u{1f512}");
    reveal_strlit("\u{1f4e2}");
    reveal_strlit("\u{1f50d}");
    reveal_strlit("\u{1f4eb}");
    reveal_strlit("\u{1f341}");
    reveal_strlit("\u{1f4e3}");
    reveal_strlit("\u{1f4dd}");
    reveal_strlit("\u{1f3a4}");
    reveal_strlit("\u{1f52c}");
    reveal_strlit("\u{1f4b0}");
    reveal_strlit("\u{1f412}");
    reveal_strlit("\u{1f319}");
    reveal_strlit("\u{1f401}");
    reveal_strlit("\u{1f3a5}");
    reveal_strlit("\u{1f4aa}");
    reveal_strlit("\u{1f344}");
    reveal_strlit("\u{1f3b9}");
    reveal_strlit("\u{1f3b5}");
    reveal_strlit("\u{1f454}");
    reveal_strlit("\u{1f4f0}");
    reveal_strlit("\u{1f515}");
    reveal_strlit("\u{26d4}\u{fe0f}");
    reveal_strlit("\u{1f6ab}");
    reveal_strlit("\u{1f443}");
    reveal_strlit("\u{1f529}");
    reveal_strlit("\u{1f419}");
    reveal_strlit("\u{1f44c}");
    reveal_strlit("\u{1f450}");
    reveal_strlit("\u{1f402}");
    reveal_strlit("\u{1f43c}");
    reveal_strlit("\u{26c5}\u{fe0f}");
    reveal_strlit("\u{1f43e}");
    reveal_strlit("\u{1f351}");
    reveal_strlit("\u{1f350}");
    reveal_strlit("\u{1f427}");
    reveal_strlit("\u{1f3ad}");
    reveal_strlit("\u{260e}\u{fe0f}");
    reveal_strlit("\u{1f416}");
    reveal_strlit("\u{1f43d}");
    reveal_strlit("\u{1f48a}");
    reveal_strlit("\u{1f34d}");
    reveal_strlit("\u{1f355}");
    reveal_strlit("\u{1f447}");
    reveal_strlit("\u{1f448}");
    reveal_strlit("\u{1f449}");
    reveal_strlit("\u{1f446}");
    reveal_strlit("\u{1f693}");
    reveal_strlit("\u{1f429}");
}

/// [`lemma_leading`] for the fourth quarter of the catalog.
#[verifier::rlimit(40)]
proof fn lemma_leading_quarter_4(b: u8)
    requires
        192 <= b < 256,
    ensures
        CATALOG[b as int].0@.len() >= 1,
        leading_position(CATALOG[b as int].0@[0]) == Some(b),
{
    reveal_strlit("\u{1f4a9}");
    reveal_strlit("\u{1f4ef}");
    reveal_strlit("\u{1f357}");
    reveal_strlit("\u{1f64f}");
    reveal_strlit("\u{1f45b}");
    reveal_strlit("\u{1f4cc}");
    reveal_strlit("\u{1f407}");
    reveal_strlit("\u{1f40e}");
    reveal_strlit("\u{1f4fb}");
    reveal_strlit("\u{1f400}");
    reveal_strlit("\u{1f380}");
    reveal_strlit("\u{1f35a}");
    reveal_strlit("\u{1f48d}");
    reveal_strlit("\u{1f680}");
    reveal_strlit("\u{1f413}");
    reveal_strlit("\u{1f339}");
    reveal_strlit("\u{1f6a8}");
    reveal_strlit("\u{1f4cd}");
    reveal_strlit("\u{1f3c3}");
    reveal_strlit("\u{1f385}");
    reveal_strlit("\u{1f4e1}");
    reveal_strlit("\u{1f3b7}");
    reveal_strlit("\u{2702}\u{fe0f}");
    reveal_strlit("\u{1f41a}");
    reveal_strlit("\u{1f455}");
    reveal_strlit("\u{1f6bf}");
    reveal_strlit("\u{1f480}");
    reveal_strlit("\u{1f604}");
    reveal_strlit("\u{1f40c}");
    reveal_strlit("\u{1f40d}");
    reveal_strlit("\u{2744}\u{fe0f}");
    reveal_strlit("\u{26c4}\u{fe0f}");
    reveal_strlit("\u{1f62d}");
    reveal_strlit("\u{26bd}\u{fe0f}");
    reveal_strlit("\u{1f509}");
    reveal_strlit("\u{1f47e}");
    reveal_strlit("\u{1f4ac}");
    reveal_strlit("\u{2b50}\u{fe0f}");
    reveal_strlit("\u{1f353}");
    reveal_strlit("\u{1f60e}");
    reveal_strlit("\u{1f4a6}");
    reveal_strlit("\u{1f3ca}");
    reveal_strlit("\u{1f489}");
    reveal_strlit("\u{1f52d}");
    reveal_strlit("\u{1f3be}");
    reveal_strlit("\u{1f4ad}");
    reveal_strlit("\u{1f6bd}");
    reveal_strlit("\u{1f445}");
    reveal_strlit("\u{1f3a9}");
    reveal_strlit("\u{1f6a5}");
    reveal_strlit("\u{1f3c6}");
    reveal_strlit("\u{1f3ba}");
    reveal_strlit("\u{1f422}");
    reveal_strlit("\u{1f6a6}");
    reveal_strlit("\u{1f4fc}");
    reveal_strlit("\u{1f3ae}");
    reveal_strlit("\u{1f3bb}");
    reveal_strlit("\u{231a}\u{fe0f}");
    reveal_strlit("\u{1f40b}");
    reveal_strlit("\u{1f377}");
    reveal_strlit("\u{1f43a}");
    reveal_strlit("\u{1f527}");
    reveal_strlit("\u{26a1}\u{fe0f}");
    reveal_strlit("\u{1f4a4}");
}

/// Every built-in emoji is non-empty, and its first scalar value leads back to its byte.
pub proof fn lemma_leading(b: u8)
    ensures
        CATALOG[b as int].0@.len() >= 1,
        leading_position(CATALOG[b as int].0@[0]) == Some(b),
{
    if b < 64 {
        lemma_leading_quarter_1(b);
    } else if b < 128 {
        lemma_leading_quarter_2(b);
    } else if b < 192 {
        lemma_leading_quarter_3(b);
    } else {
        lemma_leading_quarter_4(b);
    }
}

/// No emoji occurs twice in the built-in catalog, so the built-in table is well formed.
pub proof fn lemma_builtin_wf()
    ensures
        distinct_characters(builtin_records()),
        builtin().wf(),
{
    let entries = builtin_records();
    assert forall|i: int, j: int| 0 <= i < j < entries.len() implies entries[i].character
        != entries[j].character by {
        lemma_leading(i as u8);
        lemma_leading(j as u8);
    }
    lemma_of_wf(entries);
}

/// A cluster that the built-in table recognises begins with the scalar value that leads to
/// its byte.
proof fn lemma_recognised_leads(cluster: Seq<char>)
    requires
        builtin().reverse.contains_key(cluster),
    ensures
        cluster.len() >= 1,
        leading_position(cluster[0]) == Some(builtin().reverse[cluster]),
        builtin().character(builtin().reverse[cluster]) == cluster,
{
    lemma_builtin_wf();
    lemma_leading(builtin().reverse[cluster]);
}

/// Whether two texts hold the same scalar values.
pub fn same_text(a: &str, b: &str) -> (same: bool)
    ensures
        same == (a@ == b@),
{
    let length = a.unicode_len();
    if length != b.unicode_len() {
        return false;
    }
    let mut i: usize = 0;
    while i < length
        invariant
            i <= length,
            length == a@.len(),
            length == b@.len(),
            forall|k: int| 0 <= k < i ==> a@[k] == b@[k],
        decreases length - i,
    {
        if a.get_char(i) != b.get_char(i) {
            return false;
        }
        i += 1;
    }
    proof {
        assert(a@ =~= b@);
    }
    true
}

/// The built-in table. It holds no data: every lookup reads [`CATALOG`].
#[derive(Debug, Clone, Copy)]
pub struct Builtin;

impl View for Builtin {
    type V = TableSpec;

    open spec fn view(&self) -> TableSpec {
        builtin()
    }
}

impl Lookup for Builtin {
    fn character(&self, b: u8) -> (character: &str) {
        CATALOG[b as usize].0
    }

    fn name(&self, b: u8) -> (name: &str) {
        CATALOG[b as usize].1
    }

    fn lookup(&self, cluster: &str) -> (found: Option<u8>) {
        proof {
            lemma_builtin_wf();
            if builtin().reverse.contains_key(cluster@) {
                lemma_recognised_leads(cluster@);
            }
        }
        if cluster.unicode_len() == 0 {
            return None;
        }
        match position_of_leading(cluster.get_char(0)) {
            Some(b) => {
                assert(builtin().lookup(builtin().character(b)) == Some(b));
                if same_text(cluster, CATALOG[b as usize].0) {
                    Some(b)
                } else {
                    None
                }
            },
            None => None,
        }
    }
}

/// The built-in catalog as records, for building a table of one's own from it.
pub fn builtin_catalog() -> (catalog: Vec<Emoji>)
    ensures
        records(catalog@) == builtin_records(),
{
    let mut catalog: Vec<Emoji> = Vec::with_capacity(TABLE_SIZE);
    let mut i: usize = 0;
    while i < TABLE_SIZE
        invariant
            i <= TABLE_SIZE,
            catalog@.len() == i,
            forall|k: int| 0 <= k < i ==> (#[trigger] catalog@[k])@ == builtin_records()[k],
        decreases TABLE_SIZE - i,
    {
        catalog.push(Emoji::new(CATALOG[i].0, CATALOG[i].1));
        i += 1;
    }
    proof {
        assert(records(catalog@) =~= builtin_records());
    }
    catalog
}

} // verus!
