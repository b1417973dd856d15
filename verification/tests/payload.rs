use ddns_updater::json::{quote, quote_each, render_array, render_bool, render_number};
use ddns_updater::record::{write_object, DnsRecordUpdate};
use ddns_updater::request::{bearer, record_url};
use ddns_updater::text::join;

fn strings(items: &[&str]) -> Vec<String> {
    items.iter().map(|item| item.to_string()).collect()
}

#[test]
fn payload_matches_documented_structure() {
    let record = DnsRecordUpdate::for_address("home.example.com", "203.0.113.5");
    assert_eq!(
        record.to_json(),
        "{\"comment\":\"DDNS update\",\"name\":\"home.example.com\",\"proxied\":true,\"tags\":[],\"ttl\":3600,\"content\":\"203.0.113.5\",\"type\":\"A\"}"
    );
}

#[test]
fn payload_round_trips_through_a_json_parser() {
    let record = DnsRecordUpdate::for_address("home.example.com", "203.0.113.5");
    let parsed: serde_json::Value = serde_json::from_str(&record.to_json()).unwrap();
    let object = parsed.as_object().expect("the payload is an object");
    let keys: Vec<&str> = object.keys().map(|key| key.as_str()).collect();
    let mut expected = vec!["comment", "name", "proxied", "tags", "ttl", "content", "type"];
    expected.sort();
    let mut found = keys.clone();
    found.sort();
    assert_eq!(found, expected);
    assert_eq!(object["comment"].as_str(), Some("DDNS update"));
    assert_eq!(object["name"].as_str(), Some("home.example.com"));
    assert_eq!(object["proxied"].as_bool(), Some(true));
    assert_eq!(object["tags"].as_array().map(|tags| tags.len()), Some(0));
    assert_eq!(object["ttl"].as_u64(), Some(3600));
    assert_eq!(object["content"].as_str(), Some("203.0.113.5"));
    assert_eq!(object["type"].as_str(), Some("A"));
}

#[test]
fn record_for_address_has_the_fixed_fields() {
    let record = DnsRecordUpdate::for_address("a.example", "192.0.2.1");
    assert_eq!(record.comment, "DDNS update");
    assert_eq!(record.name, "a.example");
    assert!(record.proxied);
    assert!(record.tags.is_empty());
    assert_eq!(record.ttl, 3600);
    assert_eq!(record.content, "192.0.2.1");
    assert_eq!(record.record_type, "A");
}

#[test]
fn payload_of_an_arbitrary_record() {
    let record = DnsRecordUpdate {
        comment: "say \"hi\"".to_string(),
        name: "b\\c".to_string(),
        proxied: false,
        tags: strings(&["one", "t\two"]),
        ttl: 1,
        content: "::1".to_string(),
        record_type: "AAAA".to_string(),
    };
    let text = record.to_json();
    assert_eq!(
        text,
        "{\"comment\":\"say \\\"hi\\\"\",\"name\":\"b\\\\c\",\"proxied\":false,\"tags\":[\"one\",\"t\\two\"],\"ttl\":1,\"content\":\"::1\",\"type\":\"AAAA\"}"
    );
    let parsed: serde_json::Value = serde_json::from_str(&text).unwrap();
    assert_eq!(parsed["comment"].as_str(), Some("say \"hi\""));
    assert_eq!(parsed["name"].as_str(), Some("b\\c"));
    assert_eq!(parsed["tags"][1].as_str(), Some("t\two"));
}

#[test]
fn quote_adds_quotes_and_escapes() {
    assert_eq!(quote("203.0.113.5"), "\"203.0.113.5\"");
    assert_eq!(quote(""), "\"\"");
    assert_eq!(quote("a\"b"), "\"a\\\"b\"");
    assert_eq!(quote("a\\b"), "\"a\\\\b\"");
    assert_eq!(quote("line\nbreak"), "\"line\\nbreak\"");
    assert_eq!(quote("\u{1}"), "\"\\u0001\"");
    assert_eq!(quote("caf\u{e9}"), "\"caf\u{e9}\"");
}

#[test]
fn quote_each_keeps_order() {
    assert_eq!(quote_each(&strings(&["b", "a", "\""])), strings(&["\"b\"", "\"a\"", "\"\\\"\""]));
    assert_eq!(quote_each(&vec![]), Vec::<String>::new());
}

#[test]
fn numbers_render_in_decimal() {
    assert_eq!(render_number(0), "0");
    assert_eq!(render_number(7), "7");
    assert_eq!(render_number(10), "10");
    assert_eq!(render_number(3600), "3600");
    assert_eq!(render_number(1234567890), "1234567890");
    assert_eq!(render_number(u32::MAX), "4294967295");
}

#[test]
fn booleans_render_as_words() {
    assert_eq!(render_bool(true), "true");
    assert_eq!(render_bool(false), "false");
}

#[test]
fn arrays_render_with_commas() {
    assert_eq!(render_array(&vec![]), "[]");
    assert_eq!(render_array(&strings(&["1"])), "[1]");
    assert_eq!(render_array(&strings(&["\"a\"", "\"b\"", "3"])), "[\"a\",\"b\",3]");
}

#[test]
fn join_puts_the_separator_between_items() {
    assert_eq!(join(&vec![], "; "), "");
    assert_eq!(join(&strings(&["a"]), "; "), "a");
    assert_eq!(join(&strings(&["a", "b", "c"]), "; "), "a; b; c");
    assert_eq!(join(&strings(&["", ""]), ","), ",");
}

#[test]
fn write_object_copies_its_members() {
    let text = write_object("\"c\"", "\"n\"", false, &strings(&["\"t\""]), 42, "\"1.2.3.4\"", "\"A\"");
    assert_eq!(
        text,
        "{\"comment\":\"c\",\"name\":\"n\",\"proxied\":false,\"tags\":[\"t\"],\"ttl\":42,\"content\":\"1.2.3.4\",\"type\":\"A\"}"
    );
}

#[test]
fn record_url_embeds_zone_and_record() {
    assert_eq!(
        record_url("023e105f4ecef8ad9ca31a8372d0c353", "372e67954025e0ba6aaa6d586b9e0b59"),
        "https://api.cloudflare.com/client/v4/zones/023e105f4ecef8ad9ca31a8372d0c353/dns_records/372e67954025e0ba6aaa6d586b9e0b59"
    );
    assert_eq!(record_url("", ""), "https://api.cloudflare.com/client/v4/zones//dns_records/");
}

#[test]
fn bearer_prefixes_the_token() {
    assert_eq!(bearer("abc123"), "Bearer abc123");
    assert_eq!(bearer(""), "Bearer ");
}
