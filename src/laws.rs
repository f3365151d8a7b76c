//! What holds of the replies for every request.
use vstd::prelude::*;

use crate::query::{
    digits_value, is_digits, lemma_pair_end, number_of, pair_end, param, AMPERSAND, EQUALS, NINE,
    ZERO,
};
use crate::reply::{
    count_key, load_test_reply, load_test_spec, post_reply, status_key, BodyView, MAX_STATUS,
    MIN_STATUS, OK_STATUS,
};
use crate::text::{decimal, digit_char, is_json, lossy_text};

verus! {

/// A POST / body that is JSON comes back unchanged, byte for byte.
pub proof fn json_body_echoed(q: Seq<u8>, b: Seq<u8>)
    requires
        is_json(b),
    ensures
        post_reply(q, b).body == BodyView::Echo(b),
{
}

/// A POST / body that is not JSON, the empty body included, comes back as
/// `{"_raw": text}`, where the text is the body decoded as UTF-8 with invalid
/// sequences replaced.
pub proof fn non_json_body_wrapped(q: Seq<u8>, b: Seq<u8>)
    requires
        !is_json(b),
    ensures
        post_reply(q, b).body == BodyView::Raw(lossy_text(b)),
{
}

/// A `status` query value that spells a number from 100 to 599 becomes the
/// status of the POST / reply; any other value, or none, gives 200.
pub proof fn status_from_query(q: Seq<u8>, b: Seq<u8>)
    ensures
        (param(q, status_key()) matches Some(v) && number_of(v) matches Some(n) && MIN_STATUS
            <= n <= MAX_STATUS) ==> post_reply(q, b).status == number_of(
            param(q, status_key())->Some_0,
        )->Some_0,
        !(param(q, status_key()) matches Some(v) && number_of(v) matches Some(n) && MIN_STATUS
            <= n <= MAX_STATUS) ==> post_reply(q, b).status == OK_STATUS,
{
}

/// The bytes of a text made of ASCII characters.
pub open spec fn ascii_bytes(s: Seq<char>) -> Seq<u8> {
    s.map_values(|c: char| c as u8)
}

proof fn lemma_decimal_bytes(n: nat)
    ensures
        is_digits(ascii_bytes(decimal(n))),
        digits_value(ascii_bytes(decimal(n))) == n,
        ascii_bytes(decimal(n)).len() > 0,
        forall|i: int|
            0 <= i < ascii_bytes(decimal(n)).len() ==> #[trigger] ascii_bytes(decimal(n))[i]
                != AMPERSAND,
    decreases n,
{
    if n < 10 {
        assert(ascii_bytes(decimal(n)).drop_last() =~= Seq::<u8>::empty());
        assert(digits_value(Seq::<u8>::empty()) == 0);
    } else {
        lemma_decimal_bytes(n / 10);
        let s = ascii_bytes(decimal(n));
        assert(s.drop_last() =~= ascii_bytes(decimal(n / 10)));
        assert(s.last() == digit_char(n % 10) as u8);
        assert forall|i: int| 0 <= i < s.len() implies ZERO <= #[trigger] s[i] <= NINE by {
            if i < s.len() - 1 {
                assert(s[i] == ascii_bytes(decimal(n / 10))[i]);
            }
        }
    }
}

/// POST / with the query `status=N`, for each valid status N from 100 to 599,
/// replies with status N.
pub proof fn status_query_sets_status(n: nat, b: Seq<u8>)
    requires
        MIN_STATUS <= n <= MAX_STATUS,
    ensures
        post_reply(status_key() + seq![EQUALS] + ascii_bytes(decimal(n)), b).status == n,
{
    let d = ascii_bytes(decimal(n));
    let q = status_key() + seq![EQUALS] + d;
    lemma_decimal_bytes(n);
    assert forall|k: int| 0 <= k < q.len() implies q[k] != AMPERSAND by {
        if k >= 7 {
            assert(q[k] == d[k - 7]);
        }
    }
    lemma_pair_end(q, 0);
    assert(pair_end(q, 0) == q.len());
    assert(q.subrange(0, 6) =~= status_key());
    assert(q.subrange(7, q.len() as int) =~= d);
    assert(param(q, status_key()) == Some(d));
}

/// The `i`th item of a load-test reply with `count` items has index `i` and
/// value `item_i`, and there are exactly `count` items.
pub proof fn load_test_items(count: nat)
    ensures
        load_test_spec(count).count == count,
        load_test_spec(count).items.len() == count,
        forall|i: int|
            0 <= i < count ==> (#[trigger] load_test_spec(count).items[i]).index == i
                && load_test_spec(count).items[i].value == "item_"@ + decimal(i as nat),
{
}

/// Two GET /load-test requests with the same `count` get the same reply.
pub proof fn load_test_idempotent(q1: Seq<u8>, q2: Seq<u8>)
    requires
        param(q1, count_key()) == param(q2, count_key()),
    ensures
        load_test_reply(q1) == load_test_reply(q2),
{
}

} // verus!
