//! Text fields of the debug window that describe an inventory slot.
use crate::items::ItemData;
use vstd::prelude::*;

verus! {

/// Whether every character is an ASCII digit.
pub open spec fn all_digits(s: Seq<char>) -> bool {
    forall|i: int| 0 <= i < s.len() ==> '0' <= #[trigger] s[i] <= '9'
}

/// The number that a run of ASCII digits writes.
pub open spec fn digits_value(s: Seq<char>) -> int
    decreases s.len(),
{
    if s.len() == 0 {
        0
    } else {
        10 * digits_value(s.drop_last()) + (s.last() as int - '0' as int)
    }
}

/// The unsigned number a text writes: an optional `+`, then one or more
/// ASCII digits, with a value of at most `max`.
pub open spec fn unsigned_text(s: Seq<char>, max: int) -> Option<int> {
    let body = if s.len() > 0 && s[0] == '+' { s.drop_first() } else { s };
    if body.len() > 0 && all_digits(body) && digits_value(body) <= max {
        Some(digits_value(body))
    } else {
        None
    }
}

/// Relies on `str::parse::<u8>`, which accepts an optional `+` followed by
/// one or more ASCII digits whose value fits in a `u8`, and nothing else.
#[verifier::external_body]
fn parse_u8(s: &str) -> (r: Option<u8>)
    ensures
        r is None <==> unsigned_text(s@, 0xff) is None,
        r matches Some(v) ==> unsigned_text(s@, 0xff) == Some(v as int),
{
    s.parse::<u8>().ok()
}

/// Relies on `str::parse::<u16>`, which accepts an optional `+` followed by
/// one or more ASCII digits whose value fits in a `u16`, and nothing else.
#[verifier::external_body]
fn parse_u16(s: &str) -> (r: Option<u16>)
    ensures
        r is None <==> unsigned_text(s@, 0xffff) is None,
        r matches Some(v) ==> unsigned_text(s@, 0xffff) == Some(v as int),
{
    s.parse::<u16>().ok()
}

/// The number a text writes, or zero.
pub open spec fn number_or_zero(s: Seq<char>, max: int) -> int {
    match unsigned_text(s, max) {
        Some(v) => v,
        None => 0,
    }
}

/// The category, id and count typed into the debug window.
#[derive(Clone, Debug)]
pub struct CustomDataHolder {
    pub category: String,
    pub id: String,
    pub count: String,
    pub hp_to_give: String,
}

impl CustomDataHolder {
    /// The inventory slot the fields describe; a field that is not a number reads as zero.
    pub fn convert_to_data(&self) -> (r: ItemData)
        ensures
            r.category as int == number_or_zero(self.category@, 0xff),
            r.id as int == number_or_zero(self.id@, 0xff),
            r.count as int == number_or_zero(self.count@, 0xffff),
    {
        let category = match parse_u8(self.category.as_str()) {
            Some(v) => v,
            None => 0,
        };
        let id = match parse_u8(self.id.as_str()) {
            Some(v) => v,
            None => 0,
        };
        let count = match parse_u16(self.count.as_str()) {
            Some(v) => v,
            None => 0,
        };
        ItemData { category, id, count }
    }
}

} // verus!
