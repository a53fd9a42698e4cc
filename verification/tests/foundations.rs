use database::ids::Uuid;
use database::json::{parse, Json, JsonText};
use database::migrations::{candidate_paths, migrations_path, seed_scripts};
use database::models::{OrganizationRole, ResponseStatus};
use database::sort::{is_text_at_most, stable_order, NumberKey};
use database::text::{
    decimal_text, has_part, hex_text, parse_signed, parse_unsigned, signed_decimal_text, trim,
};
use database::text_map::TextMap;
use database::time::Timestamp;
use database::waterfall::{least, remaining_capacity, saturating_add, saturating_sub};

#[test]
fn identifiers_are_written_and_read() {
    let id = Uuid {
        value: 0x0123_4567_89ab_cdef_0123_4567_89ab_cdef,
    };
    assert_eq!(id.to_text(), "01234567-89ab-cdef-0123-456789abcdef");
    assert_eq!(id.to_simple_text(), "0123456789abcdef0123456789abcdef");
    assert_eq!(id.to_bytes()[1], 0x23);
    assert_eq!(Uuid::parse_str(&id.to_text()), Some(id));
    assert_eq!(Uuid::parse_str(&id.to_simple_text()), Some(id));
    assert_eq!(Uuid::parse_str("01234567"), None);
    assert_eq!(
        Uuid::nil().to_text(),
        "00000000-0000-0000-0000-000000000000"
    );
    assert_eq!(id.to_text(), uuid::Uuid::from_u128(id.value).to_string());
    assert_ne!(Uuid::new_v4(), Uuid::new_v4());
}

#[test]
fn numbers_are_written_and_read() {
    assert_eq!(decimal_text(u64::MAX), u64::MAX.to_string());
    assert_eq!(signed_decimal_text(i64::MIN), i64::MIN.to_string());
    assert_eq!(parse_unsigned("18446744073709551615"), Some(u64::MAX));
    assert_eq!(parse_unsigned("18446744073709551616"), None);
    assert_eq!(parse_signed("-9223372036854775808"), Some(i64::MIN));
    assert_eq!(parse_signed(""), None);
    assert_eq!(hex_text(&[0, 255, 16]), "00ff10");
}

#[test]
fn texts_are_trimmed_compared_and_searched() {
    let odd = "\u{2003}\u{a0} x y \u{3000}\n";
    assert_eq!(trim(odd), odd.trim());
    assert!(is_text_at_most("a", "ab"));
    assert!(!is_text_at_most("b", "ab"));
    assert!(is_text_at_most("é", "\u{10000}"));
    assert!(has_part("abcabd", "abd"));
    assert!(!has_part("abcab", "abd"));
    assert!(has_part("x", ""));
    assert!(!has_part("", "x"));
}

#[test]
fn amounts_stop_at_the_ends_of_the_range() {
    assert_eq!(saturating_add(i64::MAX, 1), i64::MAX);
    assert_eq!(saturating_sub(i64::MIN, 1), i64::MIN);
    assert_eq!(remaining_capacity(5, 9), 0);
    assert_eq!(remaining_capacity(i64::MAX, -1), i64::MAX);
    assert_eq!(least(3, 1, 2), 1);
}

#[test]
fn documents_are_read_one_level_at_a_time() {
    let value = parse("{\"a\": {\"b\": [1]}, \"c\": \"d\"}").unwrap();
    assert!(matches!(value.member("c"), Some(Json::Text(text)) if text == "d"));
    assert!(matches!(
        value.member("a").unwrap().member("b"),
        Some(Json::Array(items)) if items == ["1"]
    ));
    assert!(value.member("z").is_none());
    assert!(parse("{").is_none());
    assert!(JsonText::parse("nope").is_none());
}

#[test]
fn sorting_is_stable() {
    let keys: Vec<NumberKey> = [3, 1, 3, 2]
        .iter()
        .map(|n| NumberKey { number: *n })
        .collect();
    assert_eq!(stable_order(&keys), [1, 3, 0, 2]);
}

#[test]
fn maps_keep_their_texts_in_order() {
    let mut map: TextMap<i32> = TextMap::new();
    for (key, value) in [("b", 1), ("a", 2), ("c", 3), ("b", 4)] {
        map.insert(key.to_string(), value);
    }
    assert_eq!(map.get("b"), Some(&4));
    assert_eq!(map.get("d"), None);
    let entries: Vec<(String, i32)> = map.into_entries();
    assert_eq!(
        entries,
        [
            ("a".to_string(), 2),
            ("b".to_string(), 4),
            ("c".to_string(), 3)
        ]
    );
}

#[test]
fn instants_are_compared_and_moved() {
    let a = Timestamp {
        seconds: 1,
        nanos: 999_999_999,
    };
    let b = Timestamp {
        seconds: 2,
        nanos: 0,
    };
    assert!(a.is_before(&b));
    assert!(!b.is_before(&a));
    assert_eq!(a.plus_seconds(-3).seconds, -2);
}

#[test]
fn scripts_and_migrations_are_found() {
    let names: Vec<String> = ["b.sql", "notes.txt", "a.sql"]
        .iter()
        .map(|s| s.to_string())
        .collect();
    assert_eq!(seed_scripts(&names), ["a.sql", "b.sql"]);
    let paths = candidate_paths(
        Some("/env".to_string()),
        "relative".to_string(),
        "/compiled".to_string(),
    );
    assert_eq!(paths[0], "/env");
    let mut on_disk = vec![false; paths.len()];
    assert!(migrations_path(&paths, &on_disk).is_err());
    on_disk[1] = true;
    assert_eq!(migrations_path(&paths, &on_disk), Ok(1));
}

#[test]
fn roles_allow_what_they_should() {
    assert!(OrganizationRole::Owner.can_delete_organization());
    assert!(!OrganizationRole::Admin.can_delete_organization());
    assert!(OrganizationRole::Admin.can_manage_members());
    assert!(!OrganizationRole::Member.can_manage_members());
    assert!(OrganizationRole::Owner.can_manage_organization());
    assert!(OrganizationRole::Admin.can_manage_organization());
    assert!(!OrganizationRole::Member.can_manage_organization());
    assert!(OrganizationRole::Admin.can_manage_api_keys());
    assert!(OrganizationRole::Member.can_manage_api_keys());
    assert!(OrganizationRole::Admin.can_manage_mcp_connectors());
    assert!(!OrganizationRole::Member.can_manage_mcp_connectors());
    assert_eq!(ResponseStatus::InProgress.as_str(), "in_progress");
}

#[test]
fn space_is_what_the_standard_library_takes_for_it() {
    for code in 0..=0x10ffff_u32 {
        if let Some(c) = char::from_u32(code) {
            if c.is_whitespace() || code % 97 == 0 || code < 0x3100 {
                let text: String = [c, 'x', c].iter().collect();
                assert_eq!(trim(&text), text.trim());
            }
        }
    }
}
