//! The byte format of the sync ledger file.
//!
//! The file is a run of 64-bit little-endian words: a format version, the
//! number of save slots, one cursor per slot, the number of pending checks,
//! and three words per check (sign tag, magnitude of the location id, slot).
use crate::ledger::{LedgerView, OfflineCheck, SyncLedger};
use vstd::prelude::*;

verus! {

/// Version word that opens every ledger file.
pub const LEDGER_VERSION: u64 = 1;

/// Why ledger bytes could not be read.
#[derive(PartialEq, Eq, Structural, Clone, Copy, Debug)]
pub enum LedgerError {
    /// The bytes are not a ledger of this format.
    Corrupt,
}

/// The eight little-endian bytes of a word.
pub open spec fn le8(x: u64) -> Seq<u8> {
    seq![
        (x & 0xff) as u8,
        ((x >> 8u64) & 0xff) as u8,
        ((x >> 16u64) & 0xff) as u8,
        ((x >> 24u64) & 0xff) as u8,
        ((x >> 32u64) & 0xff) as u8,
        ((x >> 40u64) & 0xff) as u8,
        ((x >> 48u64) & 0xff) as u8,
        ((x >> 56u64) & 0xff) as u8,
    ]
}

/// The word whose little-endian bytes start at `i`.
pub open spec fn word_at(b: Seq<u8>, i: int) -> u64 {
    (b[i] as u64) | ((b[i + 1] as u64) << 8u64) | ((b[i + 2] as u64) << 16u64) | ((b[i + 3] as u64) << 24u64)
        | ((b[i + 4] as u64) << 32u64) | ((b[i + 5] as u64) << 40u64) | ((b[i + 6] as u64) << 48u64)
        | ((b[i + 7] as u64) << 56u64)
}

/// The bytes of a run of words.
pub open spec fn words_bytes(w: Seq<u64>) -> Seq<u8>
    decreases w.len(),
{
    if w.len() == 0 {
        Seq::empty()
    } else {
        words_bytes(w.drop_last()) + le8(w.last())
    }
}

/// The words of a run of bytes whose length is a multiple of eight.
pub open spec fn bytes_words(b: Seq<u8>) -> Seq<u64> {
    Seq::new((b.len() / 8) as nat, |i: int| word_at(b, 8 * i))
}

/// The three words of a pending check.
pub open spec fn check_words(c: OfflineCheck) -> Seq<u64> {
    if c.location_id >= 0 {
        seq![0u64, c.location_id as u64, c.slot]
    } else {
        seq![1u64, (-(c.location_id + 1)) as u64, c.slot]
    }
}

/// The words of a run of pending checks.
pub open spec fn checks_words(cs: Seq<OfflineCheck>) -> Seq<u64>
    decreases cs.len(),
{
    if cs.len() == 0 {
        Seq::empty()
    } else {
        checks_words(cs.drop_last()) + check_words(cs.last())
    }
}

/// The words of a ledger.
pub open spec fn ledger_words(l: LedgerView) -> Seq<u64> {
    seq![LEDGER_VERSION, l.sync_index.len() as u64] + l.sync_index + seq![l.offline_checks.len() as u64]
        + checks_words(l.offline_checks)
}

/// The bytes of a ledger.
pub open spec fn encode_spec(l: LedgerView) -> Seq<u8> {
    words_bytes(ledger_words(l))
}

/// The check that three words stand for, if they stand for one.
pub open spec fn check_from(tag: u64, mag: u64, slot: u64) -> Option<OfflineCheck> {
    if tag == 0 && mag <= i64::MAX {
        Some(OfflineCheck { location_id: mag as i64, slot })
    } else if tag == 1 && mag <= i64::MAX {
        Some(OfflineCheck { location_id: (-(mag as int) - 1) as i64, slot })
    } else {
        None
    }
}

/// The `i`th check of a ledger whose checks start at word `at`.
pub open spec fn check_at(w: Seq<u64>, at: int, i: int) -> Option<OfflineCheck> {
    check_from(w[at + 3 * i], w[at + 3 * i + 1], w[at + 3 * i + 2])
}

/// The ledger that a run of words stands for.
pub open spec fn decode_words(w: Seq<u64>) -> Option<LedgerView> {
    if w.len() < 2 || w[0] != LEDGER_VERSION {
        None
    } else if w.len() < 3 + w[1] {
        None
    } else {
        let n = w[1] as int;
        let m = w[2 + n] as int;
        if w.len() != 3 + n + 3 * m {
            None
        } else if !(forall|i: int| 0 <= i < m ==> (#[trigger] check_at(w, 3 + n, i)) is Some) {
            None
        } else {
            Some(LedgerView {
                sync_index: w.subrange(2, 2 + n),
                offline_checks: Seq::new(m as nat, |i: int| check_at(w, 3 + n, i).unwrap()),
            })
        }
    }
}

/// The ledger that bytes stand for.
pub open spec fn decode_spec(b: Seq<u8>) -> Option<LedgerView> {
    if b.len() % 8 != 0 {
        None
    } else {
        decode_words(bytes_words(b))
    }
}

/// Reading back the bytes of a word gives the word.
pub proof fn lemma_le8_word(x: u64)
    ensures
        word_at(le8(x), 0) == x,
{
    let b = le8(x);
    assert(((((x & 0xff) as u8) as u64) | (((((x >> 8u64) & 0xff) as u8) as u64) << 8u64) | (((((x >> 16u64) & 0xff) as u8) as u64) << 16u64)
        | (((((x >> 24u64) & 0xff) as u8) as u64) << 24u64) | (((((x >> 32u64) & 0xff) as u8) as u64) << 32u64)
        | (((((x >> 40u64) & 0xff) as u8) as u64) << 40u64) | (((((x >> 48u64) & 0xff) as u8) as u64) << 48u64)
        | (((((x >> 56u64) & 0xff) as u8) as u64) << 56u64)) == x) by (bit_vector);
}

/// The bytes of a run of words read back as the same words.
pub proof fn lemma_words_bytes(w: Seq<u64>)
    ensures
        words_bytes(w).len() == 8 * w.len(),
        forall|i: int| 0 <= i < w.len() ==> word_at(words_bytes(w), 8 * i) == #[trigger] w[i],
    decreases w.len(),
{
    if w.len() > 0 {
        let p = w.drop_last();
        lemma_words_bytes(p);
        lemma_le8_word(w.last());
        let b = words_bytes(w);
        assert(b == words_bytes(p) + le8(w.last()));
        assert forall|i: int| 0 <= i < w.len() implies word_at(b, 8 * i) == #[trigger] w[i] by {
            if i < p.len() {
                assert(p[i] == w[i]);
                assert forall|k: int| 0 <= k < 8 implies #[trigger] b[8 * i + k] == words_bytes(p)[8 * i + k] by {}
            } else {
                assert forall|k: int| 0 <= k < 8 implies #[trigger] b[8 * i + k] == le8(w.last())[k] by {}
            }
        }
    }
}

/// Bytes made of words read back as those words.
pub proof fn lemma_bytes_words_inverse(w: Seq<u64>)
    ensures
        words_bytes(w).len() % 8 == 0,
        bytes_words(words_bytes(w)) == w,
{
    lemma_words_bytes(w);
    assert(bytes_words(words_bytes(w)) =~= w);
}

/// Each check takes three words, in order.
pub proof fn lemma_checks_words(cs: Seq<OfflineCheck>)
    ensures
        checks_words(cs).len() == 3 * cs.len(),
        forall|i: int, k: int| 0 <= i < cs.len() && 0 <= k < 3 ==> #[trigger] checks_words(cs)[3 * i + k] == check_words(cs[i])[k],
    decreases cs.len(),
{
    if cs.len() > 0 {
        let p = cs.drop_last();
        lemma_checks_words(p);
        assert forall|i: int, k: int| 0 <= i < cs.len() && 0 <= k < 3 implies #[trigger] checks_words(cs)[3 * i + k] == check_words(cs[i])[k] by {
            if i < p.len() {
                assert(p[i] == cs[i]);
            }
        }
    }
}

/// The words of a check stand for that check.
pub proof fn lemma_check_round_trip(c: OfflineCheck)
    ensures
        check_from(check_words(c)[0], check_words(c)[1], check_words(c)[2]) == Some(c),
{
}

/// Reading the bytes written for a ledger gives the same ledger: the same
/// cursor for every save slot and the same pending checks, in order.
pub proof fn lemma_ledger_round_trip(l: LedgerView)
    requires
        l.sync_index.len() <= u64::MAX,
        l.offline_checks.len() <= u64::MAX,
    ensures
        decode_spec(encode_spec(l)) == Some(l),
{
    let w = ledger_words(l);
    lemma_bytes_words_inverse(w);
    lemma_checks_words(l.offline_checks);
    let n = l.sync_index.len() as int;
    let m = l.offline_checks.len() as int;
    assert(w[1] == n);
    assert(w[2 + n] == m);
    assert(w.subrange(2, 2 + n) =~= l.sync_index);
    assert forall|i: int| 0 <= i < m implies (#[trigger] check_at(w, 3 + n, i)) == Some(l.offline_checks[i]) by {
        assert(w[3 + n + 3 * i] == checks_words(l.offline_checks)[3 * i + 0]);
        assert(w[3 + n + 3 * i + 1] == checks_words(l.offline_checks)[3 * i + 1]);
        assert(w[3 + n + 3 * i + 2] == checks_words(l.offline_checks)[3 * i + 2]);
        lemma_check_round_trip(l.offline_checks[i]);
    }
    assert(Seq::new(m as nat, |i: int| check_at(w, 3 + n, i).unwrap()) =~= l.offline_checks);
}

/// Appends the eight little-endian bytes of a word.
fn push_word(out: &mut Vec<u8>, x: u64)
    ensures
        final(out)@ == old(out)@ + le8(x),
{
    out.push((x & 0xff) as u8);
    out.push(((x >> 8u64) & 0xff) as u8);
    out.push(((x >> 16u64) & 0xff) as u8);
    out.push(((x >> 24u64) & 0xff) as u8);
    out.push(((x >> 32u64) & 0xff) as u8);
    out.push(((x >> 40u64) & 0xff) as u8);
    out.push(((x >> 48u64) & 0xff) as u8);
    out.push(((x >> 56u64) & 0xff) as u8);
    assert(final(out)@ =~= old(out)@ + le8(x));
}

/// Reads the word whose bytes start at `pos`.
fn read_word(b: &Vec<u8>, pos: usize) -> (r: u64)
    requires
        pos + 8 <= b.len(),
    ensures
        r == word_at(b@, pos as int),
{
    (b[pos] as u64) | ((b[pos + 1] as u64) << 8u64) | ((b[pos + 2] as u64) << 16u64) | ((b[pos + 3] as u64) << 24u64)
        | ((b[pos + 4] as u64) << 32u64) | ((b[pos + 5] as u64) << 40u64) | ((b[pos + 6] as u64) << 48u64)
        | ((b[pos + 7] as u64) << 56u64)
}

/// The words of a ledger.
fn ledger_to_words(l: &SyncLedger) -> (r: Vec<u64>)
    ensures
        r@ == ledger_words(l@),
{
    let mut w: Vec<u64> = Vec::new();
    w.push(LEDGER_VERSION);
    w.push(l.sync_index.len() as u64);
    let mut i: usize = 0;
    while i < l.sync_index.len()
        invariant
            i <= l.sync_index.len(),
            w@ == seq![LEDGER_VERSION, l.sync_index.len() as u64] + l.sync_index@.take(i as int),
        decreases l.sync_index.len() - i,
    {
        w.push(l.sync_index[i]);
        i = i + 1;
        assert(w@ =~= seq![LEDGER_VERSION, l.sync_index.len() as u64] + l.sync_index@.take(i as int));
    }
    assert(l.sync_index@.take(i as int) =~= l.sync_index@);
    w.push(l.offline_checks.len() as u64);
    let ghost head = w@;
    let mut j: usize = 0;
    while j < l.offline_checks.len()
        invariant
            j <= l.offline_checks.len(),
            w@ == head + checks_words(l.offline_checks@.take(j as int)),
        decreases l.offline_checks.len() - j,
    {
        assert(l.offline_checks@.take(j as int + 1).drop_last() =~= l.offline_checks@.take(j as int));
        let c = l.offline_checks[j];
        if c.location_id >= 0 {
            w.push(0);
            w.push(c.location_id as u64);
        } else {
            w.push(1);
            w.push((-(c.location_id + 1)) as u64);
        }
        w.push(c.slot);
        j = j + 1;
        assert(w@ =~= head + checks_words(l.offline_checks@.take(j as int)));
    }
    assert(l.offline_checks@.take(j as int) =~= l.offline_checks@);
    w
}

/// The bytes of a ledger file.
pub fn encode_ledger(l: &SyncLedger) -> (r: Vec<u8>)
    ensures
        r@ == encode_spec(l@),
{
    let w = ledger_to_words(l);
    let mut out: Vec<u8> = Vec::new();
    let mut i: usize = 0;
    while i < w.len()
        invariant
            i <= w.len(),
            out@ == words_bytes(w@.take(i as int)),
        decreases w.len() - i,
    {
        assert(w@.take(i as int + 1).drop_last() =~= w@.take(i as int));
        push_word(&mut out, w[i]);
        i = i + 1;
    }
    assert(w@.take(i as int) =~= w@);
    out
}

/// The words of a run of bytes whose length is a multiple of eight.
fn bytes_to_words(b: &Vec<u8>) -> (r: Vec<u64>)
    requires
        b.len() % 8 == 0,
    ensures
        r@ == bytes_words(b@),
{
    let mut w: Vec<u64> = Vec::new();
    let mut i: usize = 0;
    let count = b.len() / 8;
    while i < count
        invariant
            count == b.len() / 8,
            b.len() % 8 == 0,
            i <= count,
            w@ == Seq::new(i as nat, |k: int| word_at(b@, 8 * k)),
        decreases count - i,
    {
        let x = read_word(b, 8 * i);
        w.push(x);
        i = i + 1;
        assert(w@ =~= Seq::new(i as nat, |k: int| word_at(b@, 8 * k)));
    }
    w
}

/// The check that three words stand for, if they stand for one.
fn check_of_words(tag: u64, mag: u64, slot: u64) -> (r: Option<OfflineCheck>)
    ensures
        r == check_from(tag, mag, slot),
{
    if tag == 0 && mag <= i64::MAX as u64 {
        Some(OfflineCheck { location_id: mag as i64, slot })
    } else if tag == 1 && mag <= i64::MAX as u64 {
        let m = mag as i64;
        Some(OfflineCheck { location_id: -m - 1, slot })
    } else {
        None
    }
}

/// Reads a ledger file. Bytes that are not a ledger of this format are refused.
pub fn decode_ledger(b: &Vec<u8>) -> (r: Result<SyncLedger, LedgerError>)
    ensures
        match decode_spec(b@) {
            Some(l) => r matches Ok(v) && v@ == l,
            None => r == Err::<SyncLedger, LedgerError>(LedgerError::Corrupt),
        },
{
    if b.len() % 8 != 0 {
        return Err(LedgerError::Corrupt);
    }
    let w = bytes_to_words(b);
    if w.len() < 2 || w[0] != LEDGER_VERSION {
        return Err(LedgerError::Corrupt);
    }
    if w.len() < 3 || (w[1] as u128) > (w.len() as u128) - 3 {
        return Err(LedgerError::Corrupt);
    }
    let n = w[1] as usize;
    let mut sync_index: Vec<u64> = Vec::new();
    let mut i: usize = 0;
    while i < n
        invariant
            n + 3 <= w.len(),
            i <= n,
            sync_index@ == w@.subrange(2, 2 + i as int),
        decreases n - i,
    {
        sync_index.push(w[2 + i]);
        i = i + 1;
        assert(sync_index@ =~= w@.subrange(2, 2 + i as int));
    }
    let m = w[2 + n];
    let rest = w.len() - 3 - n;
    if rest % 3 != 0 || (m as u128) != (rest / 3) as u128 {
        return Err(LedgerError::Corrupt);
    }
    let m = m as usize;
    let at = 3 + n;
    let mut checks: Vec<OfflineCheck> = Vec::new();
    let mut j: usize = 0;
    while j < m
        invariant
            at == 3 + n,
            w.len() == at + 3 * m,
            w@ == bytes_words(b@),
            b@.len() % 8 == 0,
            w@[0] == LEDGER_VERSION,
            w@[1] == n,
            w@[2 + n] == m,
            j <= m,
            forall|k: int| 0 <= k < j ==> (#[trigger] check_at(w@, at as int, k)) is Some,
            checks@ == Seq::new(j as nat, |k: int| check_at(w@, at as int, k).unwrap()),
        decreases m - j,
    {
        match check_of_words(w[at + 3 * j], w[at + 3 * j + 1], w[at + 3 * j + 2]) {
            Some(c) => {
                checks.push(c);
            },
            None => {
                assert(check_at(w@, at as int, j as int) is None);
                return Err(LedgerError::Corrupt);
            },
        }
        j = j + 1;
        assert(checks@ =~= Seq::new(j as nat, |k: int| check_at(w@, at as int, k).unwrap()));
    }
    Ok(SyncLedger { sync_index, offline_checks: checks })
}

} // verus!
