use echo_server::query::{find_param, parse_decimal};
use echo_server::reply::{
    index_get, index_post, load_test, load_test_get, payload_for, ping_get, post_payload,
    resolve_count, resolve_status, Body, Reply, LoadTest,
};
use echo_server::server::bind_address;
use echo_server::text::{push_decimal, LOREM_IPSUM};

fn echoed(r: &Reply) -> Vec<u8> {
    match &r.body {
        Body::Echo(b) => b.clone(),
        _ => panic!("expected an echoed body"),
    }
}

fn raw(r: &Reply) -> String {
    match &r.body {
        Body::Raw(s) => s.clone(),
        _ => panic!("expected a raw body"),
    }
}

fn load(r: &Reply) -> &LoadTest {
    match &r.body {
        Body::LoadTest(l) => l,
        _ => panic!("expected a load-test body"),
    }
}

#[test]
fn get_index_is_received() {
    let r = index_get();
    assert_eq!(r.status, 200);
    assert!(matches!(r.body, Body::Received));
}

#[test]
fn get_ping_is_pong() {
    let r = ping_get();
    assert_eq!(r.status, 200);
    assert!(matches!(r.body, Body::Pong));
}

#[test]
fn post_json_with_status_201() {
    let r = index_post(b"status=201", b"{\"a\":1}");
    assert_eq!(r.status, 201);
    assert_eq!(echoed(&r), b"{\"a\":1}".to_vec());
}

#[test]
fn post_not_json_is_wrapped() {
    let r = index_post(b"", b"not json");
    assert_eq!(r.status, 200);
    assert_eq!(raw(&r), "not json");
}

#[test]
fn post_empty_body_is_wrapped() {
    let r = index_post(b"", b"");
    assert_eq!(r.status, 200);
    assert_eq!(raw(&r), "");
}

#[test]
fn post_invalid_utf8_is_replaced() {
    let r = index_post(b"", &[b'a', 0xff, b'b']);
    assert_eq!(raw(&r), "a\u{FFFD}b");
}

#[test]
fn post_json_kept_byte_for_byte() {
    let body = b"  [1, 2.5, {\"k\": null}]\n";
    let r = index_post(b"", body);
    assert_eq!(echoed(&r), body.to_vec());
}

#[test]
fn post_json_with_trailing_text_is_not_json() {
    let r = index_post(b"", b"{} x");
    assert_eq!(raw(&r), "{} x");
}

#[test]
fn post_status_bounds() {
    assert_eq!(index_post(b"status=100", b"1").status, 100);
    assert_eq!(index_post(b"status=599", b"1").status, 599);
    assert_eq!(index_post(b"status=99", b"1").status, 200);
    assert_eq!(index_post(b"status=600", b"1").status, 200);
    assert_eq!(index_post(b"status=abc", b"1").status, 200);
    assert_eq!(index_post(b"status=", b"1").status, 200);
    assert_eq!(index_post(b"status=-201", b"1").status, 200);
    assert_eq!(index_post(b"status=99999999999999999999999", b"1").status, 200);
}

#[test]
fn post_status_among_other_pairs() {
    assert_eq!(index_post(b"x=1&status=404&y", b"1").status, 404);
    assert_eq!(index_post(b"status=418&status=500", b"1").status, 418);
    assert_eq!(index_post(b"statuses=404", b"1").status, 200);
}

#[test]
fn load_test_two_items() {
    let r = load_test_get(b"count=2");
    assert_eq!(r.status, 200);
    let l = load(&r);
    assert_eq!(l.count, 2);
    assert_eq!(l.lorem_ipsum, LOREM_IPSUM);
    assert_eq!(l.items.len(), 2);
    assert_eq!(l.items[0].index, 0);
    assert_eq!(l.items[0].value, "item_0");
    assert_eq!(l.items[0].raw, LOREM_IPSUM);
    assert_eq!(l.items[1].index, 1);
    assert_eq!(l.items[1].value, "item_1");
    assert_eq!(l.items[1].raw, LOREM_IPSUM);
}

#[test]
fn load_test_zero_items() {
    let r = load_test_get(b"count=0");
    let l = load(&r);
    assert_eq!(l.count, 0);
    assert!(l.items.is_empty());
}

#[test]
fn load_test_count_defaults_to_one() {
    let queries: [&[u8]; 5] = [b"", b"count=abc", b"count=-3", b"count=", b"other=5"];
    for q in queries {
        let r = load_test_get(q);
        let l = load(&r);
        assert_eq!(l.count, 1);
        assert_eq!(l.items.len(), 1);
        assert_eq!(l.items[0].value, "item_0");
    }
}

#[test]
fn load_test_item_values() {
    let l = load_test(12);
    assert_eq!(l.items.len(), 12);
    for (i, item) in l.items.iter().enumerate() {
        assert_eq!(item.index, i);
        assert_eq!(item.value, format!("item_{}", i));
    }
}

#[test]
fn load_test_is_repeatable() {
    let a = load_test_get(b"count=3");
    let b = load_test_get(b"count=3");
    let (la, lb) = (load(&a), load(&b));
    assert_eq!(la.count, lb.count);
    for (x, y) in la.items.iter().zip(lb.items.iter()) {
        assert_eq!(x.index, y.index);
        assert_eq!(x.value, y.value);
        assert_eq!(x.raw, y.raw);
    }
}

#[test]
fn decimal_rendering() {
    let mut s = String::from("n=");
    push_decimal(&mut s, 0);
    assert_eq!(s, "n=0");
    let mut s = String::new();
    push_decimal(&mut s, 1234567890);
    assert_eq!(s, "1234567890");
    let mut s = String::new();
    push_decimal(&mut s, usize::MAX);
    assert_eq!(s, usize::MAX.to_string());
}

#[test]
fn decimal_parsing() {
    assert_eq!(parse_decimal(b"0"), Some(0));
    assert_eq!(parse_decimal(b"007"), Some(7));
    assert_eq!(parse_decimal(b"18446744073709551615"), Some(u64::MAX));
    assert_eq!(parse_decimal(b"18446744073709551616"), None);
    assert_eq!(parse_decimal(b""), None);
    assert_eq!(parse_decimal(b"12a"), None);
    assert_eq!(parse_decimal(b"+1"), None);
}

#[test]
fn query_lookup() {
    assert_eq!(find_param(b"a=1&b=22", b"b"), Some(b"22".to_vec()));
    assert_eq!(find_param(b"a=1&b=22", b"a"), Some(b"1".to_vec()));
    assert_eq!(find_param(b"a=1&b=22", b"c"), None);
    assert_eq!(find_param(b"b&b=3", b"b"), Some(b"3".to_vec()));
    assert_eq!(find_param(b"b=", b"b"), Some(Vec::new()));
    assert_eq!(find_param(b"", b"b"), None);
}

#[test]
fn resolving_query_values() {
    assert_eq!(resolve_status(None), 200);
    assert_eq!(resolve_status(Some(b"302".to_vec())), 302);
    assert_eq!(resolve_count(None), 1);
    assert_eq!(resolve_count(Some(b"5".to_vec())), 5);
}

#[test]
fn payload_choice() {
    match payload_for(b"[1]", true, String::from("ignored")) {
        Body::Echo(b) => assert_eq!(b, b"[1]".to_vec()),
        _ => panic!("expected an echoed body"),
    }
    match payload_for(b"xyz", false, String::from("text")) {
        Body::Raw(s) => assert_eq!(s, "text"),
        _ => panic!("expected a raw body"),
    }
    assert!(matches!(post_payload(b"true"), Body::Echo(_)));
    assert!(matches!(post_payload(b"tru"), Body::Raw(_)));
}

#[test]
fn bind_address_defaults() {
    assert_eq!(bind_address(&None, &None), "0.0.0.0:3500");
    assert_eq!(
        bind_address(&Some(String::from("127.0.0.1")), &Some(String::from("8080"))),
        "127.0.0.1:8080"
    );
    assert_eq!(bind_address(&None, &Some(String::from("9000"))), "0.0.0.0:9000");
}
