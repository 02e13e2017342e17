//! Ordering of datapoint timestamps.
//!
//! Timestamps are ISO-8601-like strings of one fixed layout, so their
//! chronological order is the byte-wise lexicographic order of their UTF-8
//! encodings, which is also the order of `str`.
use vstd::prelude::*;
use vstd::utf8::encode_utf8;

verus! {

/// `a` sorts before or equal to `b`, byte by byte.
pub open spec fn bytes_le(a: Seq<u8>, b: Seq<u8>) -> bool
    decreases a.len(),
{
    if a.len() == 0 {
        true
    } else if b.len() == 0 {
        false
    } else if a[0] != b[0] {
        a[0] < b[0]
    } else {
        bytes_le(a.drop_first(), b.drop_first())
    }
}

/// Timestamp `a` is not later than timestamp `b`.
pub open spec fn ts_le(a: Seq<char>, b: Seq<char>) -> bool {
    bytes_le(encode_utf8(a), encode_utf8(b))
}

/// The later of two timestamps (the second one when they are equal).
pub open spec fn later(a: Seq<char>, b: Seq<char>) -> Seq<char> {
    if ts_le(a, b) {
        b
    } else {
        a
    }
}

/// The latest timestamp of a sequence, `None` when it is empty.
pub open spec fn latest(ts: Seq<Seq<char>>) -> Option<Seq<char>>
    decreases ts.len(),
{
    if ts.len() == 0 {
        None
    } else {
        match latest(ts.drop_last()) {
            None => Some(ts.last()),
            Some(m) => Some(later(m, ts.last())),
        }
    }
}

/// Order of optional timestamps: no timestamp comes before every timestamp.
pub open spec fn opt_ts_le(a: Option<Seq<char>>, b: Option<Seq<char>>) -> bool {
    match (a, b) {
        (None, _) => true,
        (Some(_), None) => false,
        (Some(x), Some(y)) => ts_le(x, y),
    }
}

pub proof fn lemma_bytes_le_refl(a: Seq<u8>)
    ensures
        bytes_le(a, a),
    decreases a.len(),
{
    if a.len() > 0 {
        lemma_bytes_le_refl(a.drop_first());
    }
}

pub proof fn lemma_bytes_le_total(a: Seq<u8>, b: Seq<u8>)
    ensures
        bytes_le(a, b) || bytes_le(b, a),
    decreases a.len(),
{
    if a.len() > 0 && b.len() > 0 && a[0] == b[0] {
        lemma_bytes_le_total(a.drop_first(), b.drop_first());
    }
}

pub proof fn lemma_bytes_le_trans(a: Seq<u8>, b: Seq<u8>, c: Seq<u8>)
    requires
        bytes_le(a, b),
        bytes_le(b, c),
    ensures
        bytes_le(a, c),
    decreases a.len(),
{
    if a.len() > 0 && b.len() > 0 && c.len() > 0 && a[0] == b[0] && b[0] == c[0] {
        lemma_bytes_le_trans(a.drop_first(), b.drop_first(), c.drop_first());
    }
}

pub proof fn lemma_ts_le_refl(a: Seq<char>)
    ensures
        ts_le(a, a),
{
    lemma_bytes_le_refl(encode_utf8(a));
}

pub proof fn lemma_ts_le_trans(a: Seq<char>, b: Seq<char>, c: Seq<char>)
    requires
        ts_le(a, b),
        ts_le(b, c),
    ensures
        ts_le(a, c),
{
    lemma_bytes_le_trans(encode_utf8(a), encode_utf8(b), encode_utf8(c));
}

/// The later of two timestamps is not earlier than either of them.
pub proof fn lemma_later_bounds(a: Seq<char>, b: Seq<char>)
    ensures
        ts_le(a, later(a, b)),
        ts_le(b, later(a, b)),
{
    lemma_ts_le_refl(a);
    lemma_ts_le_refl(b);
    lemma_bytes_le_total(encode_utf8(a), encode_utf8(b));
}

/// Adding timestamps to a sequence never makes its latest one earlier.
pub proof fn lemma_latest_grows(s: Seq<Seq<char>>, t: Seq<Seq<char>>)
    ensures
        opt_ts_le(latest(s), latest(s + t)),
    decreases t.len(),
{
    if t.len() == 0 {
        assert(s + t =~= s);
        if let Some(m) = latest(s) {
            lemma_ts_le_refl(m);
        }
    } else {
        let u = t.drop_last();
        assert((s + t).drop_last() =~= s + u);
        lemma_latest_grows(s, u);
        if let Some(m) = latest(s + u) {
            lemma_later_bounds(m, t.last());
            if let Some(k) = latest(s) {
                lemma_ts_le_trans(k, m, later(m, t.last()));
            }
        }
    }
}

/// Compares two byte strings in lexicographic order.
fn bytes_le_exec(a: &[u8], b: &[u8]) -> (r: bool)
    ensures
        r == bytes_le(a@, b@),
{
    let mut i: usize = 0;
    assert(a@.subrange(0, a@.len() as int) =~= a@);
    assert(b@.subrange(0, b@.len() as int) =~= b@);
    while i < a.len() && i < b.len()
        invariant
            i <= a@.len(),
            i <= b@.len(),
            bytes_le(a@, b@) == bytes_le(
                a@.subrange(i as int, a@.len() as int),
                b@.subrange(i as int, b@.len() as int),
            ),
        decreases a@.len() - i,
    {
        let ghost sa = a@.subrange(i as int, a@.len() as int);
        let ghost sb = b@.subrange(i as int, b@.len() as int);
        assert(sa[0] == a@[i as int]);
        assert(sb[0] == b@[i as int]);
        if a[i] != b[i] {
            return a[i] < b[i];
        }
        assert(sa.drop_first() =~= a@.subrange(i + 1, a@.len() as int));
        assert(sb.drop_first() =~= b@.subrange(i + 1, b@.len() as int));
        i = i + 1;
    }
    let ghost sa = a@.subrange(i as int, a@.len() as int);
    let ghost sb = b@.subrange(i as int, b@.len() as int);
    assert(sa.len() == 0 || sb.len() == 0);
    i == a.len()
}

/// Tells whether timestamp `a` is not later than timestamp `b`.
pub fn timestamp_le(a: &str, b: &str) -> (r: bool)
    ensures
        r == ts_le(a@, b@),
{
    bytes_le_exec(a.as_bytes(), b.as_bytes())
}

} // verus!
