use snapctl::json::Json;
use snapctl::lookup::{find_client, find_client_group, find_group, find_stream, get_available_clients, ids_with, ids_without};
use snapctl::rows::{get_client, get_clients, get_group, get_groups, get_stream, get_streams};
use snapctl::error::CtlError;
use snapctl::numfmt::{i64_to_string, u64_to_string};
use snapctl::strutil::{is_clear_token, join_strings, parse_id_list, str_eq, trim_str};
use snapctl::table::render_table;
use snapctl::rpc::get_server_url;

fn s(x: &str) -> Json {
    Json::Str(x.to_string())
}

fn obj(fields: Vec<(&str, Json)>) -> Json {
    Json::Obj(fields.into_iter().map(|(k, v)| (k.to_string(), v)).collect())
}

fn client(id: &str, connected: bool) -> Json {
    obj(vec![("id", s(id)), ("connected", Json::Bool(connected))])
}

/// A document with one group `g1` named `alpha` on stream `s1` holding
/// client `c1`, and one stream `s1`.
fn sample_doc() -> Json {
    obj(vec![
        (
            "server",
            obj(vec![("snapserver", obj(vec![("version", s("0.27.0"))]))]),
        ),
        (
            "groups",
            Json::Arr(vec![obj(vec![
                ("id", s("g1")),
                ("name", s("alpha")),
                ("muted", Json::Bool(false)),
                ("stream_id", s("s1")),
                ("clients", Json::Arr(vec![client("c1", true)])),
            ])]),
        ),
        (
            "streams",
            Json::Arr(vec![obj(vec![
                ("id", s("s1")),
                ("status", s("playing")),
                ("uri", obj(vec![("raw", s("pipe:///tmp/snapfifo"))])),
            ])]),
        ),
    ])
}

#[test]
fn find_client_present_and_absent() {
    let doc = sample_doc();
    let found = find_client(&doc, "c1").expect("c1 is listed");
    assert_eq!(found.get_str_or("id", "?"), "c1");
    assert!(find_client(&doc, "c9").is_none());
    // a document without any groups never faults
    let empty = obj(vec![]);
    assert!(find_client(&empty, "c1").is_none());
}

#[test]
fn find_client_ignores_clients_without_id() {
    let doc = obj(vec![(
        "groups",
        Json::Arr(vec![obj(vec![
            ("id", s("g1")),
            (
                "clients",
                Json::Arr(vec![obj(vec![("connected", Json::Bool(true))]), client("c2", false)]),
            ),
        ])]),
    )]);
    let found = find_client(&doc, "c2").expect("c2 is listed");
    assert_eq!(found.get_str_or("id", "?"), "c2");
}

#[test]
fn find_group_by_id_or_name() {
    let doc = sample_doc();
    assert!(find_group(&doc, "g1").is_some());
    assert!(find_group(&doc, "alpha").is_some());
    assert!(find_group(&doc, "beta").is_none());
}

#[test]
fn find_stream_and_client_group() {
    let doc = sample_doc();
    assert!(find_stream(&doc, "s1").is_some());
    assert!(find_stream(&doc, "s2").is_none());
    assert_eq!(find_client_group(&doc, "c1"), Some("g1".to_string()));
    assert_eq!(find_client_group(&doc, "c9"), None);
}

#[test]
fn available_clients_lists_all_ids() {
    let doc = sample_doc();
    assert_eq!(get_available_clients(&doc), vec!["c1".to_string()]);
}

#[test]
fn membership_updates() {
    let ids = vec!["a".to_string(), "b".to_string()];
    assert_eq!(ids_without(&ids, "a"), vec!["b".to_string()]);
    assert_eq!(
        ids_with(ids.clone(), "b"),
        vec!["a".to_string(), "b".to_string()],
    );
    assert_eq!(
        ids_with(ids, "c"),
        vec!["a".to_string(), "b".to_string(), "c".to_string()],
    );
}

#[test]
fn group_table_renders_single_row() {
    let doc = sample_doc();
    let out = get_group(&doc, "alpha").expect("group alpha exists");
    assert_eq!(
        out,
        "GROUP ID  NAME   VERSION  STATUS   STREAM ID  CLIENTS\n\
         g1        alpha  0.27.0   unmuted  s1         c1     \n",
    );
}

#[test]
fn group_table_reports_available_groups() {
    let doc = sample_doc();
    let err = get_group(&doc, "beta").expect_err("no group beta");
    match err {
        CtlError::EntityNotFound { message } => {
            assert_eq!(
                message,
                "Group with identifier 'beta' not found. Available groups: [\"g1 (alpha)\"]",
            );
        },
        other => panic!("wrong error: {:?}", other),
    }
}

#[test]
fn client_table_reports_available_clients() {
    let doc = sample_doc();
    let err = get_client(&doc, "c9").expect_err("no client c9");
    match err {
        CtlError::EntityNotFound { message } => {
            assert_eq!(
                message,
                "Client with ID 'c9' not found. Available clients: [\"c1\"]",
            );
        },
        other => panic!("wrong error: {:?}", other),
    }
}

#[test]
fn client_table_shows_defaults_for_absent_fields() {
    let doc = sample_doc();
    let out = get_client(&doc, "c1").expect("c1 exists");
    // the sparse client record degrades to the documented defaults
    assert!(out.contains("c1"));
    assert!(out.contains("connected"));
    assert!(out.contains("unknown"));
    assert!(out.contains("g1"));
    assert!(out.contains("s1"));
}

#[test]
fn clients_table_without_groups_prints_note() {
    let doc = obj(vec![]);
    assert_eq!(get_clients(&doc), "No clients found (no groups available).\n");
}

#[test]
fn groups_table_empty_prints_note() {
    assert_eq!(get_groups(&obj(vec![])), "No groups found.\n");
    let doc = obj(vec![("groups", Json::Arr(vec![]))]);
    assert_eq!(get_groups(&doc), "No groups found.\n");
}

#[test]
fn streams_table_lists_streams() {
    let doc = sample_doc();
    assert_eq!(
        get_streams(&doc),
        "STREAM ID  STATUS \ns1         playing\n",
    );
    assert_eq!(get_streams(&obj(vec![])), "No data to display.\n");
}

#[test]
fn stream_table_shows_groups_of_stream() {
    let doc = sample_doc();
    let out = get_stream(&doc, "s1").expect("s1 exists");
    assert!(out.contains("s1"));
    assert!(out.contains("playing"));
    assert!(out.contains("g1"));
    assert!(out.contains("pipe:///tmp/snapfifo"));
    let err = get_stream(&doc, "s9").expect_err("no s9");
    match err {
        CtlError::EntityNotFound { message } => {
            assert_eq!(
                message,
                "Stream with ID 's9' not found. Available streams: [\"s1\"]",
            );
        },
        other => panic!("wrong error: {:?}", other),
    }
}

#[test]
fn instance_number_or_string_normalizes() {
    let with_num = obj(vec![(
        "groups",
        Json::Arr(vec![obj(vec![(
            "clients",
            Json::Arr(vec![obj(vec![
                ("id", s("c1")),
                ("config", obj(vec![("instance", Json::Int(3))])),
            ])]),
        )])]),
    )]);
    let out = get_client(&with_num, "c1").expect("c1 exists");
    assert!(out.contains(" 3 ") || out.contains("3  "));
    let with_str = obj(vec![(
        "groups",
        Json::Arr(vec![obj(vec![(
            "clients",
            Json::Arr(vec![obj(vec![
                ("id", s("c1")),
                ("config", obj(vec![("instance", s("two"))])),
            ])]),
        )])]),
    )]);
    let out = get_client(&with_str, "c1").expect("c1 exists");
    assert!(out.contains("two"));
    let with_float = obj(vec![(
        "groups",
        Json::Arr(vec![obj(vec![(
            "clients",
            Json::Arr(vec![obj(vec![
                ("id", s("c1")),
                ("config", obj(vec![("instance", Json::OtherNum)])),
            ])]),
        )])]),
    )]);
    let out = get_client(&with_float, "c1").expect("c1 exists");
    assert!(out.contains("unknown"));
}

#[test]
fn decimal_rendering() {
    assert_eq!(u64_to_string(0), "0");
    assert_eq!(u64_to_string(1780), "1780");
    assert_eq!(i64_to_string(-42), "-42");
    assert_eq!(i64_to_string(100), "100");
    assert_eq!(i64_to_string(i64::MIN), "-9223372036854775808");
    assert_eq!(i64_to_string(i64::MAX), "9223372036854775807");
}

#[test]
fn string_utilities() {
    assert!(str_eq("abc", "abc"));
    assert!(!str_eq("abc", "abd"));
    assert_eq!(trim_str("  a b \t"), "a b");
    assert_eq!(parse_id_list(" a , b ,, c "), vec!["a", "b", "c"]);
    assert_eq!(parse_id_list(""), Vec::<String>::new());
    assert!(is_clear_token("none"));
    assert!(is_clear_token("NULL"));
    assert!(!is_clear_token("nones"));
    let items = vec!["a".to_string(), "b".to_string()];
    assert_eq!(join_strings(&items, ", "), "a, b");
}

#[test]
fn server_url_is_formed() {
    assert_eq!(get_server_url("127.0.0.1", 1780), "ws://127.0.0.1:1780/jsonrpc");
    assert_eq!(get_server_url("host.local", 80), "ws://host.local:80/jsonrpc");
}

#[test]
fn render_table_aligns_columns() {
    let headers = vec!["A".to_string(), "LONGHEAD".to_string()];
    let rows = vec![
        vec!["xxx".to_string(), "y".to_string()],
        vec!["z".to_string(), "ww".to_string()],
    ];
    assert_eq!(
        render_table(&headers, &rows),
        "A    LONGHEAD\nxxx  y       \nz    ww      \n",
    );
    assert_eq!(render_table(&headers, &vec![]), "No data to display.\n");
}
