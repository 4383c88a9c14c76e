//! The shared bank of consumables kept in the server's data storage.
use crate::goal::{decimal, decimal_text};
use crate::items::{get_items_by_category, item_table, names_in_group, same_name, ItemCategory};
use vstd::prelude::*;
use vstd::string::{StrSliceExecFns, StringExecFns};

verus! {

/// The decimal text of a signed number.
pub open spec fn signed_decimal(n: int) -> Seq<char> {
    if n < 0 {
        seq!['-'] + decimal((-n) as nat)
    } else {
        decimal(n as nat)
    }
}

/// The data-storage key of a consumable in the bank of a team and slot.
pub open spec fn bank_key_spec(team: i32, slot: i32, item: Seq<char>) -> Seq<char> {
    "team"@ + signed_decimal(team as int) + "_slot"@ + signed_decimal(slot as int) + "_"@ + item
}

/// The decimal text of a signed number.
pub fn signed_decimal_text(n: i32) -> (r: String)
    ensures
        r@ == signed_decimal(n as int),
{
    if n < 0 {
        proof {
            reveal_strlit("-");
        }
        let mut s = String::from_str("-");
        let digits = decimal_text((-(n as i64)) as u64);
        s.append(digits.as_str());
        assert(s@ =~= seq!['-'] + decimal((-n) as nat));
        s
    } else {
        decimal_text(n as u64)
    }
}

/// The data-storage key of a consumable in the bank of a team and slot.
pub fn get_bank_key(team: i32, slot: i32, item: &str) -> (r: String)
    ensures
        r@ == bank_key_spec(team, slot, item@),
{
    let mut s = String::from_str("team");
    s.append(signed_decimal_text(team).as_str());
    s.append("_slot");
    s.append(signed_decimal_text(slot).as_str());
    s.append("_");
    s.append(item);
    s
}

/// Consumable counts held in the bank.
#[derive(Clone, Debug)]
pub struct Bank {
    pub counts: Vec<(&'static str, i32)>,
}

/// Whether no two entries of the bank share a name.
pub open spec fn names_distinct(counts: Seq<(&'static str, i32)>) -> bool {
    forall|i: int, j: int| 0 <= i < counts.len() && 0 <= j < counts.len() && i != j ==> (#[trigger] counts[i]).0@ != (#[trigger] counts[j]).0@
}

/// The names of `names`, each kept at its first place only.
pub open spec fn first_occurrences(names: Seq<&'static str>) -> Seq<&'static str>
    decreases names.len(),
{
    if names.len() == 0 {
        Seq::empty()
    } else {
        let prev = first_occurrences(names.drop_last());
        if exists|k: int| 0 <= k < prev.len() && (#[trigger] prev[k])@ == names.last()@ {
            prev
        } else {
            prev.push(names.last())
        }
    }
}

/// The bank before anything was read: every consumable once, at zero.
pub open spec fn empty_bank() -> Seq<(&'static str, i32)> {
    first_occurrences(names_in_group(item_table(), ItemCategory::Consumable)).map_values(|n: &'static str| (n, 0i32))
}

/// The bank with every consumable at zero.
pub fn get_bank() -> (r: Bank)
    ensures
        r.counts@ == empty_bank(),
        names_distinct(r.counts@),
{
    let names = get_items_by_category(ItemCategory::Consumable);
    let mut counts: Vec<(&'static str, i32)> = Vec::new();
    let mut i: usize = 0;
    while i < names.len()
        invariant
            i <= names.len(),
            counts@ == first_occurrences(names@.take(i as int)).map_values(|n: &'static str| (n, 0i32)),
            names_distinct(counts@),
        decreases names.len() - i,
    {
        assert(names@.take(i as int + 1).drop_last() =~= names@.take(i as int));
        let ghost prev = first_occurrences(names@.take(i as int));
        let mut present = false;
        let mut k: usize = 0;
        while k < counts.len()
            invariant
                i < names.len(),
                k <= counts.len(),
                counts@.len() == prev.len(),
                forall|m: int| 0 <= m < prev.len() ==> (#[trigger] counts@[m]).0 == prev[m],
                present == exists|m: int| 0 <= m < k && (#[trigger] prev[m])@ == names@[i as int]@,
            decreases counts.len() - k,
        {
            if same_name(counts[k].0, names[i]) {
                present = true;
            }
            k = k + 1;
        }
        if !present {
            counts.push((names[i], 0));
        }
        assert(counts@ =~= first_occurrences(names@.take(i as int + 1)).map_values(|n: &'static str| (n, 0i32)));
        i = i + 1;
    }
    assert(names@.take(i as int) =~= names@);
    Bank { counts }
}

/// The data-storage keys of every consumable in the bank of a team and slot.
pub fn read_values(team: i32, slot: i32) -> (r: Vec<String>)
    ensures
        r@.len() == names_in_group(item_table(), ItemCategory::Consumable).len(),
        forall|i: int| 0 <= i < r@.len() ==> (#[trigger] r@[i])@ == bank_key_spec(team, slot, names_in_group(item_table(), ItemCategory::Consumable)[i]@),
{
    let names = get_items_by_category(ItemCategory::Consumable);
    let mut keys: Vec<String> = Vec::new();
    let mut i: usize = 0;
    while i < names.len()
        invariant
            i <= names.len(),
            names@ == names_in_group(item_table(), ItemCategory::Consumable),
            keys@.len() == i,
            forall|k: int| 0 <= k < i ==> (#[trigger] keys@[k])@ == bank_key_spec(team, slot, names@[k]@),
        decreases names.len() - i,
    {
        keys.push(get_bank_key(team, slot, names[i]));
        i = i + 1;
    }
    keys
}

/// The value stored under a key, if the storage reply holds it.
pub open spec fn stored_value(stored: Seq<(String, i64)>, key: Seq<char>) -> Option<i64>
    decreases stored.len(),
{
    if stored.len() == 0 {
        None
    } else if stored[0].0@ == key {
        Some(stored[0].1)
    } else {
        stored_value(stored.drop_first(), key)
    }
}

/// Looks up a key of a storage reply.
fn lookup_stored(stored: &Vec<(String, i64)>, key: &str) -> (r: Option<i64>)
    ensures
        r == stored_value(stored@, key@),
{
    let mut i: usize = 0;
    assert(stored@.skip(0) =~= stored@);
    while i < stored.len()
        invariant
            i <= stored.len(),
            stored_value(stored@, key@) == stored_value(stored@.skip(i as int), key@),
        decreases stored.len() - i,
    {
        assert(stored@.skip(i as int)[0] == stored@[i as int]);
        if same_name(stored[i].0.as_str(), key) {
            return Some(stored[i].1);
        }
        assert(stored@.skip(i as int).drop_first() =~= stored@.skip(i as int + 1));
        i = i + 1;
    }
    assert(stored@.skip(i as int) =~= Seq::<(String, i64)>::empty());
    None
}

/// The bank count of one entry after a storage reply: the stored value cut
/// to 32 bits, or unchanged where the reply lacks the key.
pub open spec fn retrieved_count(entry: (&'static str, i32), team: i32, slot: i32, stored: Seq<(String, i64)>) -> (&'static str, i32) {
    match stored_value(stored, bank_key_spec(team, slot, entry.0@)) {
        Some(v) => (entry.0, v as i32),
        None => entry,
    }
}

/// Separator of the fields of a bank key.
pub const KEY_SEPARATOR: char = '_';

/// Number of separators in a text.
pub open spec fn separators(s: Seq<char>) -> nat
    decreases s.len(),
{
    if s.len() == 0 {
        0
    } else {
        separators(s.drop_last()) + if s.last() == KEY_SEPARATOR { 1nat } else { 0nat }
    }
}

/// Whether `s[a..b]` is field `k` of `s`: it holds no separator, `k`
/// separators stand before it, and a separator or the end follows it.
pub open spec fn is_field(s: Seq<char>, k: nat, a: int, b: int) -> bool {
    &&& 0 <= a <= b <= s.len()
    &&& separators(s.take(a)) == k
    &&& (a == 0 || s[a - 1] == KEY_SEPARATOR)
    &&& (b == s.len() || s[b] == KEY_SEPARATOR)
    &&& forall|j: int| a <= j < b ==> #[trigger] s[j] != KEY_SEPARATOR
}

/// Separators counted up to two positions differ when a separator lies between them.
pub proof fn lemma_separators_monotonic(s: Seq<char>, i: int, j: int)
    requires
        0 <= i <= j <= s.len(),
    ensures
        separators(s.take(i)) <= separators(s.take(j)),
        i < j && s[i] == KEY_SEPARATOR ==> separators(s.take(i)) < separators(s.take(j)),
    decreases j - i,
{
    if i < j {
        lemma_separators_monotonic(s, i, j - 1);
        assert(s.take(j).drop_last() =~= s.take(j - 1));
        if i == j - 1 && s[i] == KEY_SEPARATOR {
            assert(s.take(j).last() == s[i]);
        }
    }
}

/// A text has at most one field with a given number.
pub proof fn lemma_field_unique(s: Seq<char>, k: nat)
    ensures
        forall|a1: int, b1: int, a2: int, b2: int| is_field(s, k, a1, b1) && is_field(s, k, a2, b2) ==> a1 == a2 && b1 == b2,
{
    assert forall|a1: int, b1: int, a2: int, b2: int| is_field(s, k, a1, b1) && is_field(s, k, a2, b2) implies a1 == a2 && b1 == b2 by {
        if a1 < a2 {
            lemma_separators_monotonic(s, a2 - 1, a2);
            assert(s.take(a2).drop_last() =~= s.take(a2 - 1));
            lemma_separators_monotonic(s, a1, a2 - 1);
            if a1 < a2 - 1 {
                assert(b1 <= a2 - 1 || s[a2 - 1] != KEY_SEPARATOR);
                lemma_separators_monotonic(s, b1, a2 - 1);
                lemma_separators_monotonic(s, a1, b1);
            }
        } else if a2 < a1 {
            lemma_separators_monotonic(s, a1 - 1, a1);
            assert(s.take(a1).drop_last() =~= s.take(a1 - 1));
            lemma_separators_monotonic(s, a2, a1 - 1);
            if a2 < a1 - 1 {
                lemma_separators_monotonic(s, b2, a1 - 1);
                lemma_separators_monotonic(s, a2, b2);
            }
        }
        if a1 == a2 && b1 != b2 {
            if b1 < b2 {
                assert(s[b1] == KEY_SEPARATOR);
            } else {
                assert(s[b2] == KEY_SEPARATOR);
            }
        }
    }
}

/// Field `k` of a text split at each separator, if it has that many fields.
pub open spec fn field_spec(s: Seq<char>, k: nat) -> Option<Seq<char>> {
    if separators(s) >= k {
        let (a, b) = choose|a: int, b: int| is_field(s, k, a, b);
        Some(s.subrange(a, b))
    } else {
        None
    }
}

/// Field `k` of a text split at each separator, if the text has that many fields.
pub fn key_field(key: &str, k: usize) -> (r: Option<String>)
    ensures
        r is None <==> separators(key@) < k,
        r matches Some(f) ==> exists|a: int, b: int| #[trigger] is_field(key@, k as nat, a, b) && f@ == key@.subrange(a, b),
{
    let n = key.unicode_len();
    let mut count: usize = 0;
    let mut start: usize = 0;
    let mut i: usize = 0;
    while i < n
        invariant
            n == key@.len(),
            i <= n,
            start <= i,
            count as nat == separators(key@.take(i as int)),
            count <= k,
            count == k ==> separators(key@.take(start as int)) == k && (start == 0 || key@[start - 1] == KEY_SEPARATOR)
                && forall|j: int| start <= j < i ==> #[trigger] key@[j] != KEY_SEPARATOR,
        decreases n - i,
    {
        let c = key.get_char(i);
        assert(key@.take(i as int + 1).drop_last() =~= key@.take(i as int));
        if c == KEY_SEPARATOR {
            if count == k {
                assert(is_field(key@, k as nat, start as int, i as int));
                proof {
                    lemma_separators_monotonic(key@, i as int, n as int);
                    assert(key@.take(n as int) =~= key@);
                }
                return Some(key.substring_char(start, i).to_owned());
            }
            count = count + 1;
            start = i + 1;
            assert(key@.take(start as int).drop_last() =~= key@.take(i as int));
        }
        i = i + 1;
    }
    assert(key@.take(n as int) =~= key@);
    if count == k {
        assert(is_field(key@, k as nat, start as int, n as int));
        Some(key.substring_char(start, n).to_owned())
    } else {
        None
    }
}

/// The bank entries after a storage reply for `key`: entries named by the
/// third field of the key take the value, cut to 32 bits.
pub open spec fn after_set_reply(counts: Seq<(&'static str, i32)>, field: Option<Seq<char>>, value: i64) -> Seq<(&'static str, i32)> {
    Seq::new(counts.len(), |i: int| if field == Some(counts[i].0@) { (counts[i].0, value as i32) } else { counts[i] })
}

impl Bank {
    /// The count of a consumable.
    pub fn count(&self, name: &str) -> (r: Option<i32>)
        ensures
            r is None <==> forall|i: int| 0 <= i < self.counts@.len() ==> (#[trigger] self.counts@[i]).0@ != name@,
            r matches Some(c) ==> exists|i: int| 0 <= i < self.counts@.len() && (#[trigger] self.counts@[i]).0@ == name@ && self.counts@[i].1 == c,
    {
        let mut i: usize = 0;
        while i < self.counts.len()
            invariant
                i <= self.counts.len(),
                forall|j: int| 0 <= j < i ==> (#[trigger] self.counts@[j]).0@ != name@,
            decreases self.counts.len() - i,
        {
            if same_name(self.counts[i].0, name) {
                return Some(self.counts[i].1);
            }
            i = i + 1;
        }
        None
    }

    /// Takes the counts of a data-storage reply.
    pub fn handle_retrieved(&mut self, team: i32, slot: i32, stored: &Vec<(String, i64)>)
        ensures
            final(self).counts@.len() == old(self).counts@.len(),
            forall|i: int| 0 <= i < old(self).counts@.len() ==> #[trigger] final(self).counts@[i] == retrieved_count(old(self).counts@[i], team, slot, stored@),
            names_distinct(old(self).counts@) ==> names_distinct(final(self).counts@),
    {
        let mut i: usize = 0;
        while i < self.counts.len()
            invariant
                i <= self.counts.len(),
                self.counts@.len() == old(self).counts@.len(),
                forall|j: int| 0 <= j < i ==> #[trigger] self.counts@[j] == retrieved_count(old(self).counts@[j], team, slot, stored@),
                forall|j: int| i <= j < self.counts@.len() ==> #[trigger] self.counts@[j] == old(self).counts@[j],
            decreases self.counts.len() - i,
        {
            let (name, _) = self.counts[i];
            let key = get_bank_key(team, slot, name);
            match lookup_stored(stored, key.as_str()) {
                Some(v) => {
                    let c = #[verifier::truncate] (v as i32);
                    self.counts.set(i, (name, c));
                },
                None => {},
            }
            i = i + 1;
        }
    }

    /// Takes the value of a data-storage reply: the key's third field names the consumable.
    pub fn handle_set_reply(&mut self, key: &str, value: i64)
        ensures
            final(self).counts@ == after_set_reply(old(self).counts@, field_spec(key@, 2), value),
            names_distinct(old(self).counts@) ==> names_distinct(final(self).counts@),
    {
        let field = key_field(key, 2);
        proof {
            lemma_field_unique(key@, 2);
        }
        let ghost want: Option<Seq<char>> = match &field {
            Some(f) => Some(f@),
            None => None,
        };
        assert(want == field_spec(key@, 2));
        let mut i: usize = 0;
        while i < self.counts.len()
            invariant
                i <= self.counts.len(),
                self.counts@.len() == old(self).counts@.len(),
                field matches Some(f) ==> want == Some(f@),
                field is None ==> want is None,
                forall|j: int| 0 <= j < i ==> #[trigger] self.counts@[j] == after_set_reply(old(self).counts@, want, value)[j],
                forall|j: int| i <= j < self.counts@.len() ==> #[trigger] self.counts@[j] == old(self).counts@[j],
            decreases self.counts.len() - i,
        {
            let (name, _) = self.counts[i];
            match &field {
                Some(f) => {
                    if same_name(f.as_str(), name) {
                        let c = #[verifier::truncate] (value as i32);
                        self.counts.set(i, (name, c));
                    }
                },
                None => {},
            }
            i = i + 1;
        }
        assert(self.counts@ =~= after_set_reply(old(self).counts@, want, value));
    }
}

} // verus!
