use parking_reconciler::config::{Config, ConfigSources, VarSource, env_cfg, k8s_base, ns, group, version, resolve_var};
use parking_reconciler::token::{TokenInfo, TokenSources, TokenVia, AuthError, bearer, clean, service_account_token};
use parking_reconciler::textfmt::{format_i32, format_u32, json_escape, str_eq};
use parking_reconciler::json::{JsonValue, obj_get, as_bool, as_i64, as_str, as_array, is_null};
use parking_reconciler::recount::{eq_ignore_ascii_case, recount_from_list};
use parking_reconciler::reconcile::parse_topic;
use parking_reconciler::wire::{lot_name, space_name, lot_create_body, lot_status_body, space_status_body, lot_spec_patch_body, lots_path, spaces_path, lot_status_path, space_status_path};
use parking_reconciler::{default_true, is_success};

fn no_sources() -> ConfigSources {
    ConfigSources {
        scheme: VarSource { var: None, env: None },
        host: VarSource { var: None, env: None },
        port: VarSource { var: None, env: None },
        group: VarSource { var: None, env: None },
        version: VarSource { var: None, env: None },
    }
}

#[test]
fn defaults_resolve() {
    let cfg: Config = env_cfg(&no_sources(), None);
    assert_eq!(cfg.scheme, "http");
    assert_eq!(cfg.host, "kubeapi-proxy.smart-parking.svc.cluster.local");
    assert_eq!(cfg.port, "8000");
    assert_eq!(ns(&cfg), "smart-parking");
    assert_eq!(group(&cfg), "parking.smart");
    assert_eq!(version(&cfg), "v1alpha1");
    assert!(cfg.token.is_none());
    assert_eq!(k8s_base(&cfg), "http://kubeapi-proxy.smart-parking.svc.cluster.local:8000");
}

#[test]
fn variable_beats_env_override() {
    let src = VarSource { var: Some("https".to_string()), env: Some("ftp".to_string()) };
    assert_eq!(resolve_var("k8s_scheme", &src, "http"), "https");
    let src2 = VarSource { var: None, env: Some("ftp".to_string()) };
    assert_eq!(resolve_var("k8s_scheme", &src2, "http"), "ftp");
}

#[test]
fn namespace_is_fixed() {
    let src = VarSource { var: Some("elsewhere".to_string()), env: Some("other".to_string()) };
    assert_eq!(resolve_var("namespace", &src, "default"), "smart-parking");
}

#[test]
fn credential_fallback_order() {
    // Sources 2 and 4 present: source 2 wins.
    let sources = TokenSources {
        config_var: None,
        env_override: Some("  from-override  ".to_string()),
        env_plain: None,
        file: Some("from-file".to_string()),
    };
    let t = service_account_token(&None, &sources).unwrap();
    assert_eq!(t.value, "from-override");
    assert!(matches!(t.via, TokenVia::EnvOverride));

    // Only source 4: it provides the value.
    let sources4 = TokenSources {
        config_var: None,
        env_override: None,
        env_plain: None,
        file: Some("from-file\n".to_string()),
    };
    let t4 = service_account_token(&None, &sources4).unwrap();
    assert_eq!(t4.value, "from-file");
    assert!(matches!(t4.via, TokenVia::MountedFile));

    // Everything empty or whitespace: unavailable.
    let blank = TokenSources {
        config_var: Some("   ".to_string()),
        env_override: Some("".to_string()),
        env_plain: Some("\t\n".to_string()),
        file: None,
    };
    assert!(service_account_token(&None, &blank).is_none());
}

#[test]
fn cached_credential_wins() {
    let cached = Some(TokenInfo { value: "cached".to_string(), via: TokenVia::EnvPlain });
    let sources = TokenSources {
        config_var: Some("fresh".to_string()),
        env_override: None,
        env_plain: None,
        file: None,
    };
    let t = service_account_token(&cached, &sources).unwrap();
    assert_eq!(t.value, "cached");
    assert!(matches!(t.via, TokenVia::EnvPlain));
}

#[test]
fn clean_trims_whitespace() {
    assert_eq!(clean("  abc \t"), Some("abc".to_string()));
    assert_eq!(clean("\u{00A0}x\u{3000}"), Some("x".to_string()));
    assert_eq!(clean("   "), None);
    assert_eq!(clean(""), None);
}

#[test]
fn bearer_header() {
    let t = TokenInfo { value: "tok123".to_string(), via: TokenVia::ConfigVariable };
    assert_eq!(bearer(Some(&t)).unwrap(), "Bearer tok123");
    assert_eq!(bearer(None).unwrap_err(), AuthError::Unavailable);
}

#[test]
fn success_range() {
    assert!(!is_success(199));
    assert!(is_success(200));
    assert!(is_success(299));
    assert!(!is_success(300));
    assert!(!is_success(404));
    assert!(default_true());
}

#[test]
fn decimal_formatting() {
    assert_eq!(format_u32(0), "0");
    assert_eq!(format_u32(4294967295), "4294967295");
    assert_eq!(format_i32(0), "0");
    assert_eq!(format_i32(42), "42");
    assert_eq!(format_i32(-7), "-7");
    assert_eq!(format_i32(i32::MIN), "-2147483648");
    assert_eq!(format_i32(i32::MAX), "2147483647");
}

#[test]
fn escaping() {
    assert_eq!(json_escape("plain"), "plain");
    assert_eq!(json_escape("a\"b\\c"), "a\\\"b\\\\c");
    assert_eq!(json_escape("l1\nl2\tl3\r"), "l1\\nl2\\tl3\\r");
    assert_eq!(json_escape("\u{0008}\u{000C}"), "\\b\\f");
    assert_eq!(json_escape("\u{0001}\u{001F}"), "\\u0001\\u001f");
    assert_eq!(json_escape("héllo→"), "héllo→");
    assert!(str_eq("same", "same"));
    assert!(!str_eq("same", "other"));
}

#[test]
fn json_tree_access() {
    let doc = JsonValue::Obj(vec![
        ("a".to_string(), JsonValue::Bool(true)),
        ("b".to_string(), JsonValue::Int(7)),
        ("c".to_string(), JsonValue::Str("s".to_string())),
        ("d".to_string(), JsonValue::Arr(vec![JsonValue::Int(1), JsonValue::Null])),
        ("e".to_string(), JsonValue::OtherNum),
    ]);
    assert_eq!(as_bool(obj_get(&doc, "a").unwrap()), Some(true));
    assert_eq!(as_i64(obj_get(&doc, "b").unwrap()), Some(7));
    assert_eq!(as_str(obj_get(&doc, "c").unwrap()).unwrap().as_str(), "s");
    let arr = as_array(obj_get(&doc, "d").unwrap()).unwrap();
    assert_eq!(arr.len(), 2);
    assert_eq!(as_i64(&arr[0]), Some(1));
    assert!(is_null(&arr[1]));
    // A number that fits no integer answers no accessor.
    assert_eq!(as_i64(obj_get(&doc, "e").unwrap()), None);
    assert_eq!(as_bool(obj_get(&doc, "e").unwrap()), None);
    assert!(obj_get(&doc, "missing").is_none());
}

#[test]
fn names_are_lowercased() {
    assert_eq!(lot_name("LotA"), "lota");
    assert_eq!(space_name("LotA", "S1"), "lota-s1");
}

#[test]
fn paths() {
    let cfg = env_cfg(&no_sources(), None);
    assert_eq!(lots_path(&cfg), "/apis/parking.smart/v1alpha1/namespaces/smart-parking/parkinglots");
    assert_eq!(spaces_path(&cfg), "/apis/parking.smart/v1alpha1/namespaces/smart-parking/parkingspaces");
    assert_eq!(
        lot_status_path(&cfg, "lota"),
        "/apis/parking.smart/v1alpha1/namespaces/smart-parking/parkinglots/lota/status"
    );
    assert_eq!(
        space_status_path(&cfg, "lota-s1"),
        "/apis/parking.smart/v1alpha1/namespaces/smart-parking/parkingspaces/lota-s1/status"
    );
}

#[test]
fn bodies() {
    let cfg = env_cfg(&no_sources(), None);
    assert_eq!(
        lot_create_body(&cfg, "LotA", None),
        r#"{"apiVersion":"parking.smart/v1alpha1","kind":"ParkingLot","metadata":{"name":"lota"},"spec":{"lotId":"LotA","totalSpaces":0}}"#
    );
    assert_eq!(
        lot_create_body(&cfg, "LotA", Some(2)),
        r#"{"apiVersion":"parking.smart/v1alpha1","kind":"ParkingLot","metadata":{"name":"lota"},"spec":{"lotId":"LotA","totalSpaces":2}}"#
    );
    assert_eq!(lot_spec_patch_body(3), r#"{"spec":{"totalSpaces":3}}"#);
    assert_eq!(
        lot_status_body(1, 2, "2023-11-14T22:13:20Z"),
        r#"{"status":{"occupied":1,"free":2,"lastUpdate":"2023-11-14T22:13:20Z"}}"#
    );
    assert_eq!(
        space_status_body(true, false, "2023-11-14T22:13:20Z"),
        r#"{"status":{"occupied":true,"sensorOnline":false,"lastSeen":"2023-11-14T22:13:20Z"}}"#
    );
}

#[test]
fn case_insensitive_match() {
    assert!(eq_ignore_ascii_case("LotA", "lota"));
    assert!(eq_ignore_ascii_case("LOTA", "lota"));
    assert!(!eq_ignore_ascii_case("lota", "lotb"));
    assert!(!eq_ignore_ascii_case("lota", "lota2"));
}

fn list_body() -> Vec<u8> {
    // Five records: three of LotA in assorted case, two occupied; one of
    // another lot; one without a lotId.
    br#"{"items":[
        {"spec":{"lotId":"lota"},"status":{"occupied":true}},
        {"spec":{"lotId":"LOTA"},"status":{"occupied":true}},
        {"spec":{"lotId":"LotA"},"status":{"occupied":false}},
        {"spec":{"lotId":"LotB"},"status":{"occupied":true}},
        {"spec":{},"status":{"occupied":true}}
    ]}"#
        .to_vec()
}

#[test]
fn recount_counts_matching_spaces() {
    let (occ, free) = recount_from_list(200, &list_body(), "LotA");
    assert_eq!((occ, free), (2, 1));
    // A record with no status or a non-boolean occupied counts as free.
    let body = br#"{"items":[{"spec":{"lotId":"l"}},{"spec":{"lotId":"l"},"status":{"occupied":"yes"}}]}"#;
    assert_eq!(recount_from_list(200, body, "l"), (0, 2));
    // No matching records at all.
    assert_eq!(recount_from_list(200, br#"{"items":[]}"#, "l"), (0, 0));
}

#[test]
fn recount_fail_safe() {
    assert_eq!(recount_from_list(500, &list_body(), "LotA"), (0, 0));
    assert_eq!(recount_from_list(200, b"not json", "LotA"), (0, 0));
    assert_eq!(recount_from_list(200, br#"{"kind":"List"}"#, "LotA"), (0, 0));
    assert_eq!(recount_from_list(200, br#"{"items":7}"#, "LotA"), (0, 0));
}

#[test]
fn topic_shapes() {
    assert_eq!(parse_topic("parking/LotA/S1/status"), Some(("LotA".to_string(), "S1".to_string())));
    assert_eq!(parse_topic("parking/a/b/status/extra"), None);
    assert_eq!(parse_topic("parking/a/b/status/"), None);
    assert_eq!(parse_topic("foo/bar"), None);
    assert_eq!(parse_topic("parking/a/b/other"), None);
    assert_eq!(parse_topic("garage/a/b/status"), None);
    assert_eq!(parse_topic(""), None);
}

#[test]
fn json_tree_values() {
    let v = JsonValue::Obj(vec![
        ("k".to_string(), JsonValue::Int(1)),
        ("k".to_string(), JsonValue::Int(2)),
    ]);
    // The first field with the name wins.
    assert_eq!(as_i64(obj_get(&v, "k").unwrap()), Some(1));
}
