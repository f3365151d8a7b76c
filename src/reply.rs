//! The replies of the four endpoints, and what holds of them.
use vstd::prelude::*;

use crate::query::{find_param, number_of, param, parse_decimal};
use crate::text::{
    decimal, decode_lossy, is_json, lossy_text, parses_as_json, push_decimal, LOREM_IPSUM,
};

verus! {

/// The status of a reply whose request named none, or none that is valid.
pub const OK_STATUS: u16 = 200;

/// The lowest valid HTTP status.
pub const MIN_STATUS: u16 = 100;

/// The highest valid HTTP status.
pub const MAX_STATUS: u16 = 599;

/// How many load-test items a request that names no usable count gets.
pub const DEFAULT_COUNT: usize = 1;

/// One synthetic item of a load-test reply.
pub struct Item {
    pub index: usize,
    pub value: String,
    pub raw: String,
}

/// An item as values.
pub struct ItemView {
    pub index: nat,
    pub value: Seq<char>,
    pub raw: Seq<char>,
}

impl View for Item {
    type V = ItemView;

    open spec fn view(&self) -> ItemView {
        ItemView { index: self.index as nat, value: self.value@, raw: self.raw@ }
    }
}

/// The body of a load-test reply.
pub struct LoadTest {
    pub lorem_ipsum: String,
    pub count: usize,
    pub items: Vec<Item>,
}

/// A load-test body as values.
pub struct LoadTestView {
    pub lorem_ipsum: Seq<char>,
    pub count: nat,
    pub items: Seq<ItemView>,
}

impl View for LoadTest {
    type V = LoadTestView;

    open spec fn view(&self) -> LoadTestView {
        LoadTestView {
            lorem_ipsum: self.lorem_ipsum@,
            count: self.count as nat,
            items: self.items@.map_values(|i: Item| i@),
        }
    }
}

/// The JSON body of a reply.
pub enum Body {
    /// `{"received": true}`
    Received,
    /// `{"data": "pong"}`
    Pong,
    /// A request body that is JSON, sent back byte for byte.
    Echo(Vec<u8>),
    /// `{"_raw": text}`, for a request body that is not JSON.
    Raw(String),
    /// `{"lorem_ipsum": ..., "count": ..., "items": [...]}`
    LoadTest(LoadTest),
}

/// A body as values.
pub enum BodyView {
    Received,
    Pong,
    Echo(Seq<u8>),
    Raw(Seq<char>),
    LoadTest(LoadTestView),
}

impl View for Body {
    type V = BodyView;

    open spec fn view(&self) -> BodyView {
        match self {
            Body::Received => BodyView::Received,
            Body::Pong => BodyView::Pong,
            Body::Echo(b) => BodyView::Echo(b@),
            Body::Raw(s) => BodyView::Raw(s@),
            Body::LoadTest(l) => BodyView::LoadTest(l@),
        }
    }
}

/// A reply: an HTTP status and a JSON body.
pub struct Reply {
    pub status: u16,
    pub body: Body,
}

/// A reply as values.
pub struct ReplyView {
    pub status: nat,
    pub body: BodyView,
}

impl View for Reply {
    type V = ReplyView;

    open spec fn view(&self) -> ReplyView {
        ReplyView { status: self.status as nat, body: self.body@ }
    }
}

/// The query key `status`, as bytes.
pub open spec fn status_key() -> Seq<u8> {
    seq![115u8, 116u8, 97u8, 116u8, 117u8, 115u8]
}

/// The query key `count`, as bytes.
pub open spec fn count_key() -> Seq<u8> {
    seq![99u8, 111u8, 117u8, 110u8, 116u8]
}

/// The status that the query value `v` of `status` asks for: the number it
/// spells when that is a valid HTTP status, else 200.
pub open spec fn status_for(v: Option<Seq<u8>>) -> nat {
    match v {
        Some(s) => match number_of(s) {
            Some(n) => if MIN_STATUS <= n <= MAX_STATUS {
                n
            } else {
                OK_STATUS as nat
            },
            None => OK_STATUS as nat,
        },
        None => OK_STATUS as nat,
    }
}

/// The number of load-test items that the query value `v` of `count` asks
/// for: the number it spells, else 1.
pub open spec fn count_for(v: Option<Seq<u8>>) -> nat {
    match v {
        Some(s) => match number_of(s) {
            Some(n) => if n <= usize::MAX {
                n
            } else {
                DEFAULT_COUNT as nat
            },
            None => DEFAULT_COUNT as nat,
        },
        None => DEFAULT_COUNT as nat,
    }
}

/// The `i`th load-test item.
pub open spec fn item_spec(i: nat) -> ItemView {
    ItemView { index: i, value: "item_"@ + decimal(i), raw: LOREM_IPSUM@ }
}

/// The load-test body with `count` items.
pub open spec fn load_test_spec(count: nat) -> LoadTestView {
    LoadTestView {
        lorem_ipsum: LOREM_IPSUM@,
        count,
        items: Seq::new(count, |i: int| item_spec(i as nat)),
    }
}

/// The body that POST / answers with for the request body `b`.
pub open spec fn post_body(b: Seq<u8>) -> BodyView {
    if is_json(b) {
        BodyView::Echo(b)
    } else {
        BodyView::Raw(lossy_text(b))
    }
}

/// The reply to POST / with the query `q` and the body `b`.
pub open spec fn post_reply(q: Seq<u8>, b: Seq<u8>) -> ReplyView {
    ReplyView { status: status_for(param(q, status_key())), body: post_body(b) }
}

/// The reply to GET /load-test with the query `q`.
pub open spec fn load_test_reply(q: Seq<u8>) -> ReplyView {
    ReplyView {
        status: OK_STATUS as nat,
        body: BodyView::LoadTest(load_test_spec(count_for(param(q, count_key())))),
    }
}

fn status_key_bytes() -> (r: Vec<u8>)
    ensures
        r@ == status_key(),
{
    let r: Vec<u8> = vec![115u8, 116u8, 97u8, 116u8, 117u8, 115u8];
    assert(r@ == status_key());
    r
}

fn count_key_bytes() -> (r: Vec<u8>)
    ensures
        r@ == count_key(),
{
    let r: Vec<u8> = vec![99u8, 111u8, 117u8, 110u8, 116u8];
    assert(r@ == count_key());
    r
}

/// The status that a query value of `status` asks for.
pub fn resolve_status(v: Option<Vec<u8>>) -> (r: u16)
    ensures
        r as nat == status_for(
            match v {
                Some(s) => Some(s@),
                None => None,
            },
        ),
{
    match v {
        Some(s) => match parse_decimal(s.as_slice()) {
            Some(n) => if MIN_STATUS as u64 <= n && n <= MAX_STATUS as u64 {
                n as u16
            } else {
                OK_STATUS
            },
            None => OK_STATUS,
        },
        None => OK_STATUS,
    }
}

/// The number of load-test items that a query value of `count` asks for.
pub fn resolve_count(v: Option<Vec<u8>>) -> (r: usize)
    ensures
        r as nat == count_for(
            match v {
                Some(s) => Some(s@),
                None => None,
            },
        ),
{
    match v {
        Some(s) => match parse_decimal(s.as_slice()) {
            Some(n) => if n <= usize::MAX as u64 {
                n as usize
            } else {
                DEFAULT_COUNT
            },
            None => DEFAULT_COUNT,
        },
        None => DEFAULT_COUNT,
    }
}

/// The `i`th load-test item.
pub fn make_item(i: usize) -> (r: Item)
    ensures
        r@ == item_spec(i as nat),
{
    let mut value = String::from_str("item_");
    push_decimal(&mut value, i);
    Item { index: i, value, raw: String::from_str(LOREM_IPSUM) }
}

/// The load-test body with `count` items, indexed from 0 upwards.
pub fn load_test(count: usize) -> (r: LoadTest)
    ensures
        r@ == load_test_spec(count as nat),
{
    let mut items: Vec<Item> = Vec::new();
    let mut i: usize = 0;
    while i < count
        invariant
            0 <= i <= count,
            items@.len() == i,
            forall|j: int| 0 <= j < i ==> (#[trigger] items@[j])@ == item_spec(j as nat),
        decreases count - i,
    {
        items.push(make_item(i));
        i = i + 1;
    }
    let r = LoadTest { lorem_ipsum: String::from_str(LOREM_IPSUM), count, items };
    assert(r@.items =~= load_test_spec(count as nat).items);
    r
}

/// The body for a request body `b`, given whether `b` is JSON and the text
/// that `b` decodes to.
pub fn payload_for(b: &[u8], json: bool, text: String) -> (r: Body)
    ensures
        r@ == (if json {
            BodyView::Echo(b@)
        } else {
            BodyView::Raw(text@)
        }),
{
    if json {
        let mut v: Vec<u8> = Vec::new();
        let mut i: usize = 0;
        while i < b.len()
            invariant
                0 <= i <= b.len(),
                v@ == b@.subrange(0, i as int),
            decreases b.len() - i,
        {
            v.push(b[i]);
            i = i + 1;
        }
        assert(v@ == b@);
        Body::Echo(v)
    } else {
        Body::Raw(text)
    }
}

/// The body that POST / answers with for the request body `b`.
pub fn post_payload(b: &[u8]) -> (r: Body)
    ensures
        r@ == post_body(b@),
{
    let json = parses_as_json(b);
    if json {
        payload_for(b, true, String::new())
    } else {
        payload_for(b, false, decode_lossy(b))
    }
}

/// GET /: always `{"received": true}` with status 200.
pub fn index_get() -> (r: Reply)
    ensures
        r@ == (ReplyView { status: OK_STATUS as nat, body: BodyView::Received }),
{
    Reply { status: OK_STATUS, body: Body::Received }
}

/// POST / with the raw query string `q` and the request body `b`: the body
/// back when it is JSON, else wrapped as text; the status that the query asks
/// for when it is valid, else 200.
pub fn index_post(q: &[u8], b: &[u8]) -> (r: Reply)
    ensures
        r@ == post_reply(q@, b@),
{
    let key = status_key_bytes();
    let status = resolve_status(find_param(q, key.as_slice()));
    Reply { status, body: post_payload(b) }
}

/// GET /ping: always `{"data": "pong"}` with status 200.
pub fn ping_get() -> (r: Reply)
    ensures
        r@ == (ReplyView { status: OK_STATUS as nat, body: BodyView::Pong }),
{
    Reply { status: OK_STATUS, body: Body::Pong }
}

/// GET /load-test with the raw query string `q`: as many items as the query
/// asks for, else one.
pub fn load_test_get(q: &[u8]) -> (r: Reply)
    ensures
        r@ == load_test_reply(q@),
{
    let key = count_key_bytes();
    let count = resolve_count(find_param(q, key.as_slice()));
    Reply { status: OK_STATUS, body: Body::LoadTest(load_test(count)) }
}

} // verus!
