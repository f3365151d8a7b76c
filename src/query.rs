//! Reading parameters out of a raw URL query string such as `status=201&x=y`.
use vstd::prelude::*;

verus! {

/// The byte `&`, which separates the pairs of a query string.
pub const AMPERSAND: u8 = 38;

/// The byte `=`, which separates a key from its value.
pub const EQUALS: u8 = 61;

/// The byte `0`.
pub const ZERO: u8 = 48;

/// The byte `9`.
pub const NINE: u8 = 57;

/// Every byte of `s` is an ASCII decimal digit, and there is at least one.
pub open spec fn is_digits(s: Seq<u8>) -> bool {
    s.len() > 0 && forall|i: int| 0 <= i < s.len() ==> ZERO <= #[trigger] s[i] <= NINE
}

/// The number that the decimal digits `s` spell, most significant first.
pub open spec fn digits_value(s: Seq<u8>) -> nat
    decreases s.len(),
{
    if s.len() == 0 {
        0
    } else {
        digits_value(s.drop_last()) * 10 + (s.last() - ZERO) as nat
    }
}

/// What a parameter value means as an unsigned number: present when it is
/// made of decimal digits alone and fits in 64 bits.
pub open spec fn number_of(s: Seq<u8>) -> Option<nat> {
    if is_digits(s) && digits_value(s) <= u64::MAX {
        Some(digits_value(s))
    } else {
        None
    }
}

/// Appending digits never makes the number smaller.
pub proof fn lemma_digits_value_grows(s: Seq<u8>, i: int, j: int)
    requires
        0 <= i <= j <= s.len(),
        forall|k: int| 0 <= k < s.len() ==> ZERO <= #[trigger] s[k] <= NINE,
    ensures
        digits_value(s.subrange(0, i)) <= digits_value(s.subrange(0, j)),
    decreases j - i,
{
    if i < j {
        lemma_digits_value_grows(s, i, j - 1);
        assert(s.subrange(0, j).drop_last() == s.subrange(0, j - 1));
    }
}

/// Reads `s` as an unsigned decimal number.
pub fn parse_decimal(s: &[u8]) -> (r: Option<u64>)
    ensures
        r matches Some(v) ==> number_of(s@) == Some(v as nat),
        r is None ==> number_of(s@) is None,
{
    if s.len() == 0 {
        return None;
    }
    let mut i: usize = 0;
    let mut acc: u64 = 0;
    while i < s.len()
        invariant
            0 <= i <= s.len(),
            acc as nat == digits_value(s@.subrange(0, i as int)),
            forall|k: int| 0 <= k < i ==> ZERO <= #[trigger] s@[k] <= NINE,
        decreases s.len() - i,
    {
        let b = s[i];
        if b < ZERO || b > NINE {
            assert(!is_digits(s@));
            return None;
        }
        assert(s@.subrange(0, i + 1).drop_last() == s@.subrange(0, i as int));
        let d = (b - ZERO) as u64;
        match acc.checked_mul(10) {
            Some(m) => match m.checked_add(d) {
                Some(n) => {
                    acc = n;
                },
                None => {
                    return parse_overflow(s, i);
                },
            },
            None => {
                return parse_overflow(s, i);
            },
        }
        i = i + 1;
    }
    assert(s@.subrange(0, s@.len() as int) == s@);
    Some(acc)
}

/// The rest of `parse_decimal` once the digits before position `i + 1` spell
/// a number beyond 64 bits: the answer is `None` whatever follows.
fn parse_overflow(s: &[u8], i: usize) -> (r: Option<u64>)
    requires
        i < s.len(),
        digits_value(s@.subrange(0, i + 1)) > u64::MAX,
        forall|k: int| 0 <= k < i ==> ZERO <= #[trigger] s@[k] <= NINE,
    ensures
        r is None,
        number_of(s@) is None,
{
    let mut j: usize = i;
    while j < s.len()
        invariant
            i <= j <= s.len(),
            forall|k: int| 0 <= k < j ==> ZERO <= #[trigger] s@[k] <= NINE,
        decreases s.len() - j,
    {
        if s[j] < ZERO || s[j] > NINE {
            return None;
        }
        j = j + 1;
    }
    proof {
        lemma_digits_value_grows(s@, i + 1, s@.len() as int);
        assert(s@.subrange(0, s@.len() as int) == s@);
    }
    None
}

/// The end of the pair that starts at `i`: the position of the next `&`, or
/// the end of the query.
pub open spec fn pair_end(q: Seq<u8>, i: int) -> int
    decreases q.len() - i,
{
    if i >= q.len() {
        q.len() as int
    } else if q[i] == AMPERSAND {
        i
    } else {
        pair_end(q, i + 1)
    }
}

/// The end of a pair lies between its start and the end of the query, and
/// nothing before it is a separator.
pub proof fn lemma_pair_end(q: Seq<u8>, i: int)
    requires
        0 <= i <= q.len(),
    ensures
        i <= pair_end(q, i) <= q.len(),
        pair_end(q, i) < q.len() ==> q[pair_end(q, i)] == AMPERSAND,
        forall|k: int| i <= k < pair_end(q, i) ==> q[k] != AMPERSAND,
    decreases q.len() - i,
{
    if i < q.len() && q[i] != AMPERSAND {
        lemma_pair_end(q, i + 1);
    }
}

/// The pair `q[i..e]` is `key=value`.
pub open spec fn pair_has_key(q: Seq<u8>, i: int, e: int, key: Seq<u8>) -> bool {
    e - i > key.len() && q.subrange(i, i + key.len()) == key && q[i + key.len()] == EQUALS
}

/// The value of the first pair at or after position `i` whose key is `key`.
pub open spec fn param_from(q: Seq<u8>, key: Seq<u8>, i: int) -> Option<Seq<u8>>
    decreases q.len() - i,
    via param_from_decreases
{
    if i < 0 || i > q.len() {
        None
    } else {
        let e = pair_end(q, i);
        if pair_has_key(q, i, e, key) {
            Some(q.subrange(i + key.len() + 1, e))
        } else if e >= q.len() {
            None
        } else {
            param_from(q, key, e + 1)
        }
    }
}

#[via_fn]
proof fn param_from_decreases(q: Seq<u8>, key: Seq<u8>, i: int) {
    if 0 <= i <= q.len() {
        lemma_pair_end(q, i);
    }
}

/// The value of the first pair of the query `q` whose key is `key`, if any.
pub open spec fn param(q: Seq<u8>, key: Seq<u8>) -> Option<Seq<u8>> {
    param_from(q, key, 0)
}

/// Whether the pair `q[i..e]` is `key=value`.
fn has_key(q: &[u8], i: usize, e: usize, key: &[u8]) -> (r: bool)
    requires
        i <= e <= q.len(),
    ensures
        r == pair_has_key(q@, i as int, e as int, key@),
{
    if e - i <= key.len() {
        return false;
    }
    let mut k: usize = 0;
    while k < key.len()
        invariant
            0 <= k <= key.len(),
            e - i > key.len(),
            i <= e <= q.len(),
            forall|m: int| 0 <= m < k ==> q@[i + m] == key@[m],
        decreases key.len() - k,
    {
        if q[i + k] != key[k] {
            assert(q@.subrange(i as int, i + key.len())[k as int] != key@[k as int]);
            return false;
        }
        k = k + 1;
    }
    assert(q@.subrange(i as int, i + key.len()) == key@);
    q[i + key.len()] == EQUALS
}

/// Finds the value of the first pair of the query `q` whose key is `key`.
pub fn find_param(q: &[u8], key: &[u8]) -> (r: Option<Vec<u8>>)
    ensures
        r matches Some(v) ==> param(q@, key@) == Some(v@),
        r is None ==> param(q@, key@) is None,
{
    let mut i: usize = 0;
    loop
        invariant
            0 <= i <= q.len(),
            param(q@, key@) == param_from(q@, key@, i as int),
        decreases q.len() - i,
    {
        let mut e: usize = i;
        while e < q.len() && q[e] != AMPERSAND
            invariant
                i <= e <= q.len(),
                pair_end(q@, i as int) == pair_end(q@, e as int),
            decreases q.len() - e,
        {
            e = e + 1;
        }
        if has_key(q, i, e, key) {
            let mut v: Vec<u8> = Vec::new();
            let mut k: usize = i + key.len() + 1;
            while k < e
                invariant
                    i + key.len() + 1 <= k <= e <= q.len(),
                    v@ == q@.subrange(i + key.len() + 1, k as int),
                decreases e - k,
            {
                v.push(q[k]);
                k = k + 1;
            }
            return Some(v);
        }
        if e >= q.len() {
            return None;
        }
        i = e + 1;
    }
}

} // verus!
