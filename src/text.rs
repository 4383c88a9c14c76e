//! The game's text encoding and the text box the client writes into.
use vstd::prelude::*;
use crate::names::NameSet;
use vstd::string::{StrSliceExecFns, StringExecFns};

verus! {

/// Glyph the game shows for a character it cannot draw (a question mark).
pub const UNKNOWN_GLYPH: u8 = 0x4B;
/// Control byte that opens a command.
pub const COMMAND: u8 = 0x7E;
/// Text type of text printed at once.
pub const NORMAL_TEXT: u8 = 0x9;
/// Size of the game's text buffer.
pub const TEXT_BUFFER_LEN: usize = 256;

/// The glyph of a character, where the game's font has one.
pub open spec fn glyph_of(c: char) -> Option<u8> {
    match c {
        '0' => Some(0x0u8),
        '1' => Some(0x1u8),
        '2' => Some(0x2u8),
        '3' => Some(0x3u8),
        '4' => Some(0x4u8),
        '5' => Some(0x5u8),
        '6' => Some(0x6u8),
        '7' => Some(0x7u8),
        '8' => Some(0x8u8),
        '9' => Some(0x9u8),
        '/' => Some(0xAu8),
        '"' => Some(0xBu8),
        ']' => Some(0xCu8),
        '\'' => Some(0xDu8),
        'A' => Some(0xEu8),
        'B' => Some(0xFu8),
        'C' => Some(0x10u8),
        'D' => Some(0x11u8),
        'E' => Some(0x12u8),
        'F' => Some(0x13u8),
        'G' => Some(0x14u8),
        'H' => Some(0x15u8),
        'I' => Some(0x16u8),
        'J' => Some(0x17u8),
        'K' => Some(0x18u8),
        'L' => Some(0x19u8),
        'M' => Some(0x1Au8),
        'N' => Some(0x1Bu8),
        'O' => Some(0x1Cu8),
        'P' => Some(0x1Du8),
        'Q' => Some(0x1Eu8),
        'R' => Some(0x1Fu8),
        'S' => Some(0x20u8),
        'T' => Some(0x21u8),
        'U' => Some(0x22u8),
        'V' => Some(0x23u8),
        'W' => Some(0x24u8),
        'X' => Some(0x25u8),
        'Y' => Some(0x26u8),
        'Z' => Some(0x27u8),
        'a' => Some(0x28u8),
        'b' => Some(0x29u8),
        'c' => Some(0x2Au8),
        'd' => Some(0x2Bu8),
        'e' => Some(0x2Cu8),
        'f' => Some(0x2Du8),
        'g' => Some(0x2Eu8),
        'h' => Some(0x2Fu8),
        'i' => Some(0x30u8),
        'j' => Some(0x31u8),
        'k' => Some(0x32u8),
        'l' => Some(0x33u8),
        'm' => Some(0x34u8),
        'n' => Some(0x35u8),
        'o' => Some(0x36u8),
        'p' => Some(0x37u8),
        'q' => Some(0x38u8),
        'r' => Some(0x39u8),
        's' => Some(0x3Au8),
        't' => Some(0x3Bu8),
        'u' => Some(0x3Cu8),
        'v' => Some(0x3Du8),
        'w' => Some(0x3Eu8),
        'x' => Some(0x3Fu8),
        'y' => Some(0x40u8),
        'z' => Some(0x41u8),
        'ẞ' => Some(0x42u8),
        '.' => Some(0x43u8),
        ',' => Some(0x44u8),
        ':' => Some(0x45u8),
        ';' => Some(0x46u8),
        ' ' => Some(0x47u8),
        '`' => Some(0x48u8),
        '&' => Some(0x49u8),
        '!' => Some(0x4Au8),
        '?' => Some(0x4Bu8),
        '(' => Some(0x4Cu8),
        ')' => Some(0x4Du8),
        '+' => Some(0x4Eu8),
        '-' => Some(0x4Fu8),
        '*' => Some(0x50u8),
        'À' => Some(0x51u8),
        'Â' => Some(0x52u8),
        'Ç' => Some(0x53u8),
        'É' => Some(0x54u8),
        'È' => Some(0x55u8),
        'Ë' => Some(0x56u8),
        'Ê' => Some(0x57u8),
        'Î' => Some(0x58u8),
        'Ï' => Some(0x59u8),
        'Ô' => Some(0x5Au8),
        'Œ' => Some(0x5Bu8),
        'Ù' => Some(0x5Cu8),
        'Û' => Some(0x5Du8),
        'Ü' => Some(0x5Eu8),
        'à' => Some(0x5Fu8),
        'â' => Some(0x60u8),
        'ç' => Some(0x61u8),
        'é' => Some(0x62u8),
        'è' => Some(0x63u8),
        'ë' => Some(0x64u8),
        'ê' => Some(0x65u8),
        'î' => Some(0x66u8),
        'ï' => Some(0x67u8),
        'ô' => Some(0x68u8),
        'œ' => Some(0x69u8),
        'ù' => Some(0x6Au8),
        'û' => Some(0x6Bu8),
        'ü' => Some(0x6Cu8),
        'Ñ' => Some(0x6Du8),
        'Á' => Some(0x6Eu8),
        'Í' => Some(0x6Fu8),
        'Ú' => Some(0x70u8),
        'Ó' => Some(0x71u8),
        'á' => Some(0x72u8),
        '█' => Some(0x74u8),
        _ => None,
    }
}

/// Looks up the glyph of a character.
pub fn glyph(c: char) -> (r: Option<u8>)
    ensures
        r == glyph_of(c),
{
    match c {
        '0' => Some(0x0u8),
        '1' => Some(0x1u8),
        '2' => Some(0x2u8),
        '3' => Some(0x3u8),
        '4' => Some(0x4u8),
        '5' => Some(0x5u8),
        '6' => Some(0x6u8),
        '7' => Some(0x7u8),
        '8' => Some(0x8u8),
        '9' => Some(0x9u8),
        '/' => Some(0xAu8),
        '"' => Some(0xBu8),
        ']' => Some(0xCu8),
        '\'' => Some(0xDu8),
        'A' => Some(0xEu8),
        'B' => Some(0xFu8),
        'C' => Some(0x10u8),
        'D' => Some(0x11u8),
        'E' => Some(0x12u8),
        'F' => Some(0x13u8),
        'G' => Some(0x14u8),
        'H' => Some(0x15u8),
        'I' => Some(0x16u8),
        'J' => Some(0x17u8),
        'K' => Some(0x18u8),
        'L' => Some(0x19u8),
        'M' => Some(0x1Au8),
        'N' => Some(0x1Bu8),
        'O' => Some(0x1Cu8),
        'P' => Some(0x1Du8),
        'Q' => Some(0x1Eu8),
        'R' => Some(0x1Fu8),
        'S' => Some(0x20u8),
        'T' => Some(0x21u8),
        'U' => Some(0x22u8),
        'V' => Some(0x23u8),
        'W' => Some(0x24u8),
        'X' => Some(0x25u8),
        'Y' => Some(0x26u8),
        'Z' => Some(0x27u8),
        'a' => Some(0x28u8),
        'b' => Some(0x29u8),
        'c' => Some(0x2Au8),
        'd' => Some(0x2Bu8),
        'e' => Some(0x2Cu8),
        'f' => Some(0x2Du8),
        'g' => Some(0x2Eu8),
        'h' => Some(0x2Fu8),
        'i' => Some(0x30u8),
        'j' => Some(0x31u8),
        'k' => Some(0x32u8),
        'l' => Some(0x33u8),
        'm' => Some(0x34u8),
        'n' => Some(0x35u8),
        'o' => Some(0x36u8),
        'p' => Some(0x37u8),
        'q' => Some(0x38u8),
        'r' => Some(0x39u8),
        's' => Some(0x3Au8),
        't' => Some(0x3Bu8),
        'u' => Some(0x3Cu8),
        'v' => Some(0x3Du8),
        'w' => Some(0x3Eu8),
        'x' => Some(0x3Fu8),
        'y' => Some(0x40u8),
        'z' => Some(0x41u8),
        'ẞ' => Some(0x42u8),
        '.' => Some(0x43u8),
        ',' => Some(0x44u8),
        ':' => Some(0x45u8),
        ';' => Some(0x46u8),
        ' ' => Some(0x47u8),
        '`' => Some(0x48u8),
        '&' => Some(0x49u8),
        '!' => Some(0x4Au8),
        '?' => Some(0x4Bu8),
        '(' => Some(0x4Cu8),
        ')' => Some(0x4Du8),
        '+' => Some(0x4Eu8),
        '-' => Some(0x4Fu8),
        '*' => Some(0x50u8),
        'À' => Some(0x51u8),
        'Â' => Some(0x52u8),
        'Ç' => Some(0x53u8),
        'É' => Some(0x54u8),
        'È' => Some(0x55u8),
        'Ë' => Some(0x56u8),
        'Ê' => Some(0x57u8),
        'Î' => Some(0x58u8),
        'Ï' => Some(0x59u8),
        'Ô' => Some(0x5Au8),
        'Œ' => Some(0x5Bu8),
        'Ù' => Some(0x5Cu8),
        'Û' => Some(0x5Du8),
        'Ü' => Some(0x5Eu8),
        'à' => Some(0x5Fu8),
        'â' => Some(0x60u8),
        'ç' => Some(0x61u8),
        'é' => Some(0x62u8),
        'è' => Some(0x63u8),
        'ë' => Some(0x64u8),
        'ê' => Some(0x65u8),
        'î' => Some(0x66u8),
        'ï' => Some(0x67u8),
        'ô' => Some(0x68u8),
        'œ' => Some(0x69u8),
        'ù' => Some(0x6Au8),
        'û' => Some(0x6Bu8),
        'ü' => Some(0x6Cu8),
        'Ñ' => Some(0x6Du8),
        'Á' => Some(0x6Eu8),
        'Í' => Some(0x6Fu8),
        'Ú' => Some(0x70u8),
        'Ó' => Some(0x71u8),
        'á' => Some(0x72u8),
        '█' => Some(0x74u8),
        _ => None,
    }
}

/// The bytes of one character: a space and a line break are commands, any
/// other character is its glyph, or a question mark where there is none.
pub open spec fn char_bytes(c: char) -> Seq<u8> {
    if c == ' ' {
        seq![COMMAND, 0x05u8]
    } else if c == '\n' {
        seq![COMMAND, 0x09u8, 0x00u8, COMMAND, 0x0Cu8]
    } else {
        match glyph_of(c) {
            Some(g) => seq![g],
            None => seq![UNKNOWN_GLYPH],
        }
    }
}

/// The bytes of a text.
pub open spec fn text_bytes(s: Seq<char>) -> Seq<u8>
    decreases s.len(),
{
    if s.len() == 0 {
        Seq::empty()
    } else {
        text_bytes(s.drop_last()) + char_bytes(s.last())
    }
}

/// Encodes a text in the game's character set.
pub fn translate_string(input: String) -> (r: Vec<u8>)
    ensures
        r@ == text_bytes(input@),
{
    let s = input.as_str();
    let n = s.unicode_len();
    let mut res: Vec<u8> = Vec::new();
    let mut i: usize = 0;
    while i < n
        invariant
            n == s@.len(),
            s@ == input@,
            i <= n,
            res@ == text_bytes(s@.take(i as int)),
        decreases n - i,
    {
        let c = s.get_char(i);
        assert(s@.take(i as int + 1).drop_last() =~= s@.take(i as int));
        assert(s@.take(i as int + 1).last() == c);
        let ghost before = res@;
        if c == ' ' {
            res.push(COMMAND);
            res.push(0x05);
        } else if c == '\n' {
            res.push(COMMAND);
            res.push(0x09);
            res.push(0x00);
            res.push(COMMAND);
            res.push(0x0C);
        } else {
            match glyph(c) {
                Some(g) => res.push(g),
                None => res.push(UNKNOWN_GLYPH),
            }
        }
        assert(res@ =~= before + char_bytes(c));
        i = i + 1;
    }
    assert(s@.take(n as int) =~= s@);
    res
}

/// A text box: a header of command, text type and colour, the encoded text,
/// and the closing command.
#[derive(Debug)]
pub struct TextInfo {
    spacer: u8,
    text_type: u8,
    color: u8,
    text: Vec<u8>,
    end_chars: [u8; 2],
}

impl TextInfo {
    /// The header and the closing command are those of normal text.
    #[verifier::type_invariant]
    spec fn well_formed(&self) -> bool {
        self.spacer == COMMAND && self.text_type == NORMAL_TEXT && self.end_chars@ == seq![COMMAND, 0x0Eu8]
    }

    /// The encoded text of the box.
    pub closed spec fn text_spec(&self) -> Seq<u8> {
        self.text@
    }

    /// The colour of the box.
    pub closed spec fn color_spec(&self) -> u8 {
        self.color
    }

    /// A box of normal text in the given colour.
    pub fn new(text: String, color: u8) -> (r: TextInfo)
        ensures
            r.text_spec() == text_bytes(text@),
            r.color_spec() == color,
    {
        let end_chars = [COMMAND, 0x0E];
        assert(end_chars@ =~= seq![COMMAND, 0x0Eu8]);
        TextInfo { spacer: COMMAND, text_type: NORMAL_TEXT, color, text: translate_string(text), end_chars }
    }

    /// The buffer the game draws from: the header, then as much of the text as fits, then zeros.
    pub fn to_bytes(&self) -> (r: Vec<u8>)
        ensures
            r@.len() == TEXT_BUFFER_LEN,
            r@[0] == COMMAND && r@[1] == NORMAL_TEXT && r@[2] == self.color_spec(),
            forall|k: int| 0 <= k < TEXT_BUFFER_LEN - 3 ==> #[trigger] r@[k + 3] == if k < self.text_spec().len() { self.text_spec()[k] } else { 0u8 },
    {
        let mut res: Vec<u8> = Vec::new();
        res.push(self.spacer);
        res.push(self.text_type);
        res.push(self.color);
        proof {
            use_type_invariant(self);
        }
        let mut k: usize = 0;
        while k < TEXT_BUFFER_LEN - 3
            invariant
                k <= TEXT_BUFFER_LEN - 3,
                res@.len() == k + 3,
                res@[0] == self.spacer && res@[1] == self.text_type && res@[2] == self.color,
                forall|j: int| 0 <= j < k ==> #[trigger] res@[j + 3] == if j < self.text@.len() { self.text@[j] } else { 0u8 },
            decreases TEXT_BUFFER_LEN - 3 - k,
        {
            if k < self.text.len() {
                res.push(self.text[k]);
            } else {
                res.push(0);
            }
            k = k + 1;
        }
        res
    }

    /// Number of bytes the game draws for the box: header, text and closing command.
    pub fn get_length(&self) -> (r: usize)
        requires
            self.text_spec().len() + 5 <= usize::MAX,
        ensures
            r == self.text_spec().len() + 3,
    {
        5 + self.text.len() - 2
    }
}

/// Text colour of white.
pub const WHITE: u8 = 0;
/// Text colour of red.
pub const RED: u8 = 1;
/// Text colour of green.
pub const GREEN: u8 = 2;
/// Text colour of blue.
pub const BLUE: u8 = 3;

/// The colour a found item is announced in: traps red, progression blue,
/// useful items green, anything else white.
pub fn item_text_color(is_trap: bool, is_useful: bool, is_progression: bool) -> (r: u8)
    ensures
        r == if is_trap {
            RED
        } else if is_progression {
            BLUE
        } else if is_useful {
            GREEN
        } else {
            WHITE
        },
{
    if is_trap {
        RED
    } else if is_progression {
        BLUE
    } else if is_useful {
        GREEN
    } else {
        WHITE
    }
}

/// A tracker line for an item: its name and a box that is ticked when unlocked.
pub fn checkbox_text(item: &str, list: &NameSet) -> (r: String)
    ensures
        r@ == item@ + " ["@ + (if list@.contains(item@) { "X"@ } else { " "@ }) + "]"@,
{
    let mut s = String::from_str(item);
    s.append(" [");
    if list.contains(item) {
        s.append("X");
    } else {
        s.append(" ");
    }
    s.append("]");
    s
}

} // verus!
