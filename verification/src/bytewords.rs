use vstd::prelude::*;

use crate::ascii::lower_alpha_seq;
use crate::error::Error;

verus! {

/// The three bytewords encoding styles.
#[derive(Clone, Copy, PartialEq, Eq, Structural)]
pub enum Style {
    /// Four-letter words, separated by spaces.
    Standard,
    /// Four-letter words, separated by dashes.
    Uri,
    /// Two-letter words, concatenated without separators.
    Minimal,
}

/// A numeric code for each style, used to index the encoding and decoding
/// functions below at the specification level.
pub open spec fn style_code(style: Style) -> int {
    match style {
        Style::Standard => 0,
        Style::Uri => 1,
        Style::Minimal => 2,
    }
}

/// What the outside bytewords codec renders for a byte payload in a given
/// style: a function of the payload and the style alone.
pub uninterp spec fn bytewords_encoding(data: Seq<u8>, style: int) -> Seq<char>;

/// What the outside bytewords codec decodes a string to in a given style:
/// `None` where it rejects the string.
pub uninterp spec fn bytewords_decoding(encoded: Seq<char>, style: int) -> Option<Seq<u8>>;

/// Relies on ur::bytewords::encode: appends a four-byte checksum to the
/// payload and maps each byte to its byteword; in the minimal style each
/// byteword is a two-letter lowercase pair and no separator is used.
#[verifier::external_body]
pub fn encode(data: &[u8], style: Style) -> (r: String)
    ensures
        r@ == bytewords_encoding(data@, style_code(style)),
        style == Style::Minimal ==> lower_alpha_seq(r@) && r@.len() == 2 * (data@.len() + 4),
{
    let st = match style {
        Style::Standard => ur::bytewords::Style::Standard,
        Style::Uri => ur::bytewords::Style::Uri,
        Style::Minimal => ur::bytewords::Style::Minimal,
    };
    ur::bytewords::encode(data, st)
}

/// Relies on ur::bytewords::decode: accepts exactly the strings the
/// bytewords codec produces plus any other whose words and checksum
/// validate, and on such strings returns the byte payload; in particular it
/// inverts `encode` at every payload.
#[verifier::external_body]
pub fn decode(encoded: &str, style: Style) -> (r: Result<Vec<u8>, Error>)
    ensures
        r matches Ok(v) ==> bytewords_decoding(encoded@, style_code(style)) == Some(v@),
        r matches Err(e) ==> bytewords_decoding(encoded@, style_code(style)) is None && e matches
            Error::Bytewords(_),
        r matches Ok(v) ==> forall|d: Seq<u8>|
            encoded@ == #[trigger] bytewords_encoding(d, style_code(style)) ==> v@ == d,
        r is Err ==> forall|d: Seq<u8>|
            encoded@ != #[trigger] bytewords_encoding(d, style_code(style)),
{
    let st = match style {
        Style::Standard => ur::bytewords::Style::Standard,
        Style::Uri => ur::bytewords::Style::Uri,
        Style::Minimal => ur::bytewords::Style::Minimal,
    };
    match ur::bytewords::decode(encoded, st) {
        Ok(v) => Ok(v),
        Err(e) => Err(Error::Bytewords(format!("{e}"))),
    }
}

/// The 256 fixed bytewords, indexed by byte value. A frozen public
/// constant: changing any entry would break previously issued identifiers.
pub const BYTEWORDS: [&'static str; 256] = [
    "able", "acid", "also", "apex", "aqua", "arch", "atom", "aunt",
    "away", "axis", "back", "bald", "barn", "belt", "beta", "bias",
    "blue", "body", "brag", "brew", "bulb", "buzz", "calm", "cash",
    "cats", "chef", "city", "claw", "code", "cola", "cook", "cost",
    "crux", "curl", "cusp", "cyan", "dark", "data", "days", "deli",
    "dice", "diet", "door", "down", "draw", "drop", "drum", "dull",
    "duty", "each", "easy", "echo", "edge", "epic", "even", "exam",
    "exit", "eyes", "fact", "fair", "fern", "figs", "film", "fish",
    "fizz", "flap", "flew", "flux", "foxy", "free", "frog", "fuel",
    "fund", "gala", "game", "gear", "gems", "gift", "girl", "glow",
    "good", "gray", "grim", "guru", "gush", "gyro", "half", "hang",
    "hard", "hawk", "heat", "help", "high", "hill", "holy", "hope",
    "horn", "huts", "iced", "idea", "idle", "inch", "inky", "into",
    "iris", "iron", "item", "jade", "jazz", "join", "jolt", "jowl",
    "judo", "jugs", "jump", "junk", "jury", "keep", "keno", "kept",
    "keys", "kick", "kiln", "king", "kite", "kiwi", "knob", "lamb",
    "lava", "lazy", "leaf", "legs", "liar", "limp", "lion", "list",
    "logo", "loud", "love", "luau", "luck", "lung", "main", "many",
    "math", "maze", "memo", "menu", "meow", "mild", "mint", "miss",
    "monk", "nail", "navy", "need", "news", "next", "noon", "note",
    "numb", "obey", "oboe", "omit", "onyx", "open", "oval", "owls",
    "paid", "part", "peck", "play", "plus", "poem", "pool", "pose",
    "puff", "puma", "purr", "quad", "quiz", "race", "ramp", "real",
    "redo", "rich", "road", "rock", "roof", "ruby", "ruin", "runs",
    "rust", "safe", "saga", "scar", "sets", "silk", "skew", "slot",
    "soap", "solo", "song", "stub", "surf", "swan", "taco", "task",
    "taxi", "tent", "tied", "time", "tiny", "toil", "tomb", "toys",
    "trip", "tuna", "twin", "ugly", "undo", "unit", "urge", "user",
    "vast", "very", "veto", "vial", "vibe", "view", "visa", "void",
    "vows", "wall", "wand", "warm", "wasp", "wave", "waxy", "webs",
    "what", "when", "whiz", "wolf", "work", "yank", "yawn", "yell",
    "yoga", "yurt", "zaps", "zero", "zest", "zinc", "zone", "zoom",
];

/// The 256 fixed bytemoji glyphs, indexed by byte value. A frozen public
/// constant, like `BYTEWORDS`.
pub const BYTEMOJIS: [&'static str; 256] = [
    "😀", "😂", "😆", "😉", "🙄", "😋", "😎", "😍",
    "😘", "😭", "🫠", "🥱", "🤩", "😶", "🤨", "🫥",
    "🥵", "🥶", "😳", "🤪", "😵", "😡", "🤢", "😇",
    "🤠", "🤡", "🥳", "🥺", "😬", "🤑", "🙃", "🤯",
    "😈", "👹", "👺", "💀", "👻", "👽", "😺", "😹",
    "😻", "😽", "🙀", "😿", "🫶", "🤲", "🙌", "🤝",
    "👍", "👎", "👈", "👆", "💪", "👄", "🦷", "👂",
    "👃", "🧠", "👀", "🤚", "🦶", "🍎", "🍊", "🍋",
    "🍌", "🍉", "🍇", "🍓", "🫐", "🍒", "🍑", "🍍",
    "🥝", "🍆", "🥑", "🥦", "🍅", "🌽", "🥕", "🫒",
    "🧄", "🥐", "🥯", "🍞", "🧀", "🥚", "🍗", "🌭",
    "🍔", "🍟", "🍕", "🌮", "🥙", "🍱", "🍜", "🍤",
    "🍚", "🥠", "🍨", "🍦", "🎂", "🪴", "🌵", "🌱",
    "💐", "🍁", "🍄", "🌹", "🌺", "🌼", "🌻", "🌸",
    "💨", "🌊", "💧", "💦", "🌀", "🌈", "🌞", "🌝",
    "🌛", "🌜", "🌙", "🌎", "💫", "⭐", "🪐", "🌐",
    "💛", "💔", "💘", "💖", "💕", "🏁", "🚩", "💬",
    "💯", "🚫", "🔴", "🔷", "🟩", "🛑", "🔺", "🚗",
    "🚑", "🚒", "🚜", "🛵", "🚨", "🚀", "🚁", "🛟",
    "🚦", "🏰", "🎡", "🎢", "🎠", "🏠", "🔔", "🔑",
    "🚪", "🪑", "🎈", "💌", "📦", "📫", "📖", "📚",
    "📌", "🧮", "🔒", "💎", "📷", "⏰", "⏳", "📡",
    "💡", "💰", "🧲", "🧸", "🎁", "🎀", "🎉", "🪭",
    "👑", "🫖", "🔭", "🛁", "🏆", "🥁", "🎷", "🎺",
    "🏀", "🏈", "🎾", "🏓", "✨", "🔥", "💥", "👕",
    "👚", "👖", "🩳", "👗", "👔", "🧢", "👓", "🧶",
    "🧵", "💍", "👠", "👟", "🧦", "🧤", "👒", "👜",
    "🐱", "🐶", "🐭", "🐹", "🐰", "🦊", "🐻", "🐼",
    "🐨", "🐯", "🦁", "🐮", "🐷", "🐸", "🐵", "🐔",
    "🐥", "🦆", "🦉", "🐴", "🦄", "🐝", "🐛", "🦋",
    "🐌", "🐞", "🐢", "🐺", "🐍", "🪽", "🐙", "🦑",
    "🪼", "🦞", "🦀", "🐚", "🦭", "🐟", "🐬", "🐳",
];

/// The four-word identifier of a 4-byte value: each byte's byteword, joined
/// by single spaces.
pub open spec fn spec_identifier(table: Seq<&'static str>, data: Seq<u8>) -> Seq<char>
    recommends table.len() == 256, data.len() == 4,
{
    table[data[0] as int]@ + " "@ + table[data[1] as int]@ + " "@ + table[data[2] as int]@ + " "@
        + table[data[3] as int]@
}

/// Encodes a 4-byte slice of data as a string of bytewords for
/// identification purposes.
pub fn identifier(data: &[u8; 4]) -> (r: String)
    ensures
        r@ == spec_identifier(BYTEWORDS@, data@),
{
    let mut s = String::new();
    s.append(BYTEWORDS[data[0] as usize]);
    s.append(" ");
    s.append(BYTEWORDS[data[1] as usize]);
    s.append(" ");
    s.append(BYTEWORDS[data[2] as usize]);
    s.append(" ");
    s.append(BYTEWORDS[data[3] as usize]);
    s
}

/// Encodes a 4-byte slice of data as a string of bytemojis for
/// identification purposes.
pub fn bytemoji_identifier(data: &[u8; 4]) -> (r: String)
    ensures
        r@ == spec_identifier(BYTEMOJIS@, data@),
{
    let mut s = String::new();
    s.append(BYTEMOJIS[data[0] as usize]);
    s.append(" ");
    s.append(BYTEMOJIS[data[1] as usize]);
    s.append(" ");
    s.append(BYTEMOJIS[data[2] as usize]);
    s.append(" ");
    s.append(BYTEMOJIS[data[3] as usize]);
    s
}

} // verus!
