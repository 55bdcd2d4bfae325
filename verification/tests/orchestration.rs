use snapctl::json::Json;
use snapctl::classify::{classify_response, Classification};
use snapctl::error::CtlError;
use snapctl::rpc::{Action, RpcRequest};
use snapctl::flow_set_client::{SetClientFlow, SetClientParams};
use snapctl::flow_set_group::{SetGroupFlow, SetGroupParams};
use snapctl::flow_delete::{DeleteClientFlow, DeleteClientsFlow};

fn s(x: &str) -> Json {
    Json::Str(x.to_string())
}

fn obj(fields: Vec<(&str, Json)>) -> Json {
    Json::Obj(fields.into_iter().map(|(k, v)| (k.to_string(), v)).collect())
}

fn ok_response() -> Json {
    obj(vec![("result", s("ok"))])
}

fn not_found_response(message: &str) -> Json {
    obj(vec![(
        "error",
        obj(vec![("code", Json::Int(-32603)), ("message", s(message))]),
    )])
}

fn group_status_response(id: &str, name: &str, stream: &str, client_ids: &[&str]) -> Json {
    let clients: Vec<Json> = client_ids.iter().map(|c| obj(vec![("id", s(c))])).collect();
    obj(vec![(
        "result",
        obj(vec![(
            "group",
            obj(vec![
                ("id", s(id)),
                ("name", s(name)),
                ("stream_id", s(stream)),
                ("clients", Json::Arr(clients)),
            ]),
        )]),
    )])
}

fn server_status_response(groups: Vec<Json>) -> Json {
    obj(vec![(
        "result",
        obj(vec![("server", obj(vec![("groups", Json::Arr(groups))]))]),
    )])
}

fn group_with_clients(id: &str, client_ids: &[&str]) -> Json {
    let clients: Vec<Json> = client_ids.iter().map(|c| obj(vec![("id", s(c))])).collect();
    obj(vec![("id", s(id)), ("clients", Json::Arr(clients))])
}

fn client_status_response(id: &str, name: &str) -> Json {
    obj(vec![(
        "result",
        obj(vec![(
            "client",
            obj(vec![
                ("id", s(id)),
                ("connected", Json::Bool(true)),
                ("config", obj(vec![("name", s(name))])),
            ]),
        )]),
    )])
}

fn expect_send(a: Action) -> RpcRequest {
    match a {
        Action::Send(req) => req,
        other => panic!("expected a request, got {:?}", other),
    }
}

#[test]
fn classify_success_not_found_and_unknown() {
    assert_eq!(classify_response(&ok_response()), Classification::Success);
    assert_eq!(
        classify_response(&not_found_response("Client not found")),
        Classification::EntityNotFound { detail: Some("Client not found".to_string()) },
    );
    let other = obj(vec![(
        "error",
        obj(vec![("code", Json::Int(-32000)), ("message", s("boom"))]),
    )]);
    assert_eq!(
        classify_response(&other),
        Classification::UnknownRpc { code: Some(-32000), detail: Some("boom".to_string()) },
    );
}

#[test]
fn error_messages_render() {
    let e = CtlError::UnknownRpc { code: Some(-32000), message: "boom".to_string() };
    assert_eq!(e.message(), "RPC error -32000: boom");
    let e = CtlError::EntityNotFound { message: "Client not found: c9".to_string() };
    assert_eq!(e.message(), "Client not found: c9");
}

/// The internal-error code aborts the mutation before any further call.
#[test]
fn set_client_aborts_on_not_found() {
    let mut flow = SetClientFlow::new(SetClientParams {
        client_id: "c1".to_string(),
        mute: None,
        volume: None,
        latency: None,
        name: Some("X".to_string()),
        group: None,
    });
    let a = flow.start();
    assert_eq!(
        expect_send(a),
        RpcRequest::ClientGetStatus { id: "c1".to_string() },
    );
    let a = flow.step(&not_found_response("Client not found"));
    match a {
        Action::Fail(CtlError::EntityNotFound { message }) => {
            assert_eq!(message, "Client not found: Client not found");
        },
        other => panic!("expected failure, got {:?}", other),
    }
}

/// A supplied name travels verbatim, and the confirmation table shows the
/// name the final fetch reports.
#[test]
fn set_client_name_round_trip() {
    let mut flow = SetClientFlow::new(SetClientParams {
        client_id: "c1".to_string(),
        mute: None,
        volume: None,
        latency: None,
        name: Some("X".to_string()),
        group: None,
    });
    flow.start();
    let a = flow.step(&ok_response());
    assert_eq!(
        expect_send(a),
        RpcRequest::ClientSetName { id: "c1".to_string(), name: "X".to_string() },
    );
    let a = flow.step(&ok_response());
    assert_eq!(expect_send(a), RpcRequest::ServerGetStatus);
    let a = flow.step(&server_status_response(vec![group_with_clients("g1", &["c1"])]));
    assert_eq!(
        expect_send(a),
        RpcRequest::GroupGetStatus { id: "g1".to_string() },
    );
    let a = flow.step(&group_status_response("g1", "alpha", "s1", &["c1"]));
    assert_eq!(
        expect_send(a),
        RpcRequest::ClientGetStatus { id: "c1".to_string() },
    );
    let a = flow.step(&client_status_response("c1", "X"));
    match a {
        Action::Done(table) => {
            assert!(table.contains("X"));
            assert!(table.contains("c1"));
            assert!(table.contains("alpha"));
        },
        other => panic!("expected the confirmation table, got {:?}", other),
    }
}

/// Moving a client to a group adds it to the target's member list and the
/// confirmation shows the new group.
#[test]
fn set_client_group_moves_client() {
    let mut flow = SetClientFlow::new(SetClientParams {
        client_id: "c1".to_string(),
        mute: None,
        volume: None,
        latency: None,
        name: None,
        group: Some("g2".to_string()),
    });
    flow.start();
    let a = flow.step(&ok_response());
    assert_eq!(
        expect_send(a),
        RpcRequest::GroupGetStatus { id: "g2".to_string() },
    );
    // the target group currently holds only cx; c1 is appended
    let a = flow.step(&group_status_response("g2", "beta", "s2", &["cx"]));
    assert_eq!(
        expect_send(a),
        RpcRequest::GroupSetClients {
            id: "g2".to_string(),
            clients: vec!["cx".to_string(), "c1".to_string()],
        },
    );
    let a = flow.step(&ok_response());
    assert_eq!(expect_send(a), RpcRequest::ServerGetStatus);
    // the fresh snapshot shows the move took effect
    let a = flow.step(&server_status_response(vec![
        group_with_clients("g1", &[]),
        group_with_clients("g2", &["cx", "c1"]),
    ]));
    assert_eq!(
        expect_send(a),
        RpcRequest::GroupGetStatus { id: "g2".to_string() },
    );
    let a = flow.step(&group_status_response("g2", "beta", "s2", &["cx", "c1"]));
    assert_eq!(
        expect_send(a),
        RpcRequest::ClientGetStatus { id: "c1".to_string() },
    );
    let a = flow.step(&client_status_response("c1", "living room"));
    match a {
        Action::Done(table) => {
            assert!(table.contains("g2"));
            assert!(table.contains("beta"));
        },
        other => panic!("expected the confirmation table, got {:?}", other),
    }
}

/// Moving a client to the group it already belongs to sends the membership
/// unchanged: the identifier is not duplicated.
#[test]
fn set_client_group_idempotent() {
    let mut flow = SetClientFlow::new(SetClientParams {
        client_id: "c1".to_string(),
        mute: None,
        volume: None,
        latency: None,
        name: None,
        group: Some("g1".to_string()),
    });
    flow.start();
    flow.step(&ok_response());
    let a = flow.step(&group_status_response("g1", "alpha", "s1", &["cx", "c1"]));
    assert_eq!(
        expect_send(a),
        RpcRequest::GroupSetClients {
            id: "g1".to_string(),
            clients: vec!["cx".to_string(), "c1".to_string()],
        },
    );
}

/// A sentinel group token removes the client from its current group.
#[test]
fn set_client_group_sentinel_removes() {
    let mut flow = SetClientFlow::new(SetClientParams {
        client_id: "c1".to_string(),
        mute: None,
        volume: None,
        latency: None,
        name: None,
        group: Some("none".to_string()),
    });
    flow.start();
    let a = flow.step(&ok_response());
    assert_eq!(expect_send(a), RpcRequest::ServerGetStatus);
    let a = flow.step(&server_status_response(vec![group_with_clients("g1", &["c1", "cx"])]));
    assert_eq!(
        expect_send(a),
        RpcRequest::GroupGetStatus { id: "g1".to_string() },
    );
    let a = flow.step(&group_status_response("g1", "alpha", "s1", &["c1", "cx"]));
    assert_eq!(
        expect_send(a),
        RpcRequest::GroupSetClients { id: "g1".to_string(), clients: vec!["cx".to_string()] },
    );
}

/// Mute and volume merge into one call; latency follows.
#[test]
fn set_client_volume_and_latency_order() {
    let mut flow = SetClientFlow::new(SetClientParams {
        client_id: "c1".to_string(),
        mute: Some(true),
        volume: Some(55),
        latency: Some(20),
        name: None,
        group: None,
    });
    flow.start();
    let a = flow.step(&ok_response());
    assert_eq!(
        expect_send(a),
        RpcRequest::ClientSetVolume {
            id: "c1".to_string(),
            muted: Some(true),
            percent: Some(55),
        },
    );
    let a = flow.step(&ok_response());
    assert_eq!(
        expect_send(a),
        RpcRequest::ClientSetLatency { id: "c1".to_string(), latency: 20 },
    );
}

/// `--stream-id none` and `--stream-id null` both clear the stream to the
/// empty string.
#[test]
fn set_group_stream_sentinel_clears() {
    for token in ["none", "null", "NULL"] {
        let mut flow = SetGroupFlow::new(SetGroupParams {
            group_id: "g1".to_string(),
            name: None,
            mute: None,
            stream_id: Some(token.to_string()),
            clients: None,
        });
        flow.start();
        let a = flow.step(&group_status_response("g1", "alpha", "s1", &["c1"]));
        assert_eq!(
            expect_send(a),
            RpcRequest::GroupSetStream { id: "g1".to_string(), stream_id: "".to_string() },
        );
    }
}

/// `--clients none` clears the membership to the empty list; a real list is
/// split on commas and trimmed.
#[test]
fn set_group_clients_sentinel_and_list() {
    let mut flow = SetGroupFlow::new(SetGroupParams {
        group_id: "g1".to_string(),
        name: None,
        mute: None,
        stream_id: None,
        clients: Some("none".to_string()),
    });
    flow.start();
    let a = flow.step(&group_status_response("g1", "alpha", "s1", &["c1"]));
    assert_eq!(
        expect_send(a),
        RpcRequest::GroupSetClients { id: "g1".to_string(), clients: vec![] },
    );
    let mut flow = SetGroupFlow::new(SetGroupParams {
        group_id: "g1".to_string(),
        name: None,
        mute: None,
        stream_id: None,
        clients: Some(" c1 , c2 ".to_string()),
    });
    flow.start();
    let a = flow.step(&group_status_response("g1", "alpha", "s1", &[]));
    assert_eq!(
        expect_send(a),
        RpcRequest::GroupSetClients {
            id: "g1".to_string(),
            clients: vec!["c1".to_string(), "c2".to_string()],
        },
    );
}

/// A group mutation without any field prints the guidance and succeeds.
#[test]
fn set_group_without_params_prints_guidance() {
    let mut flow = SetGroupFlow::new(SetGroupParams {
        group_id: "g1".to_string(),
        name: None,
        mute: None,
        stream_id: None,
        clients: None,
    });
    flow.start();
    let a = flow.step(&group_status_response("g1", "alpha", "s1", &[]));
    match a {
        Action::Done(out) => {
            assert_eq!(
                out,
                "No parameters specified to set. Use --name, --mute, --stream-id, or --clients.\n",
            );
        },
        other => panic!("expected the guidance, got {:?}", other),
    }
}

/// The name sentinel clears the group name, and the confirmation table
/// shows the cleared value.
#[test]
fn set_group_name_sentinel_and_confirmation() {
    let mut flow = SetGroupFlow::new(SetGroupParams {
        group_id: "g1".to_string(),
        name: Some("null".to_string()),
        mute: None,
        stream_id: None,
        clients: None,
    });
    flow.start();
    let a = flow.step(&group_status_response("g1", "alpha", "s1", &["c1"]));
    assert_eq!(
        expect_send(a),
        RpcRequest::GroupSetName { id: "g1".to_string(), name: "".to_string() },
    );
    let a = flow.step(&ok_response());
    match a {
        Action::Done(table) => {
            assert!(table.starts_with("GROUP ID  NAME"));
            assert!(table.contains("g1"));
            assert!(table.contains("s1"));
        },
        other => panic!("expected the confirmation table, got {:?}", other),
    }
}

/// Deleting one client: check, delete, confirm with the fresh overview.
#[test]
fn delete_client_sequence() {
    let mut flow = DeleteClientFlow::new("c1".to_string());
    let a = flow.start();
    assert_eq!(
        expect_send(a),
        RpcRequest::ClientGetStatus { id: "c1".to_string() },
    );
    let a = flow.step(&ok_response());
    assert_eq!(
        expect_send(a),
        RpcRequest::ServerDeleteClient { id: "c1".to_string() },
    );
    let a = flow.step(&ok_response());
    assert_eq!(expect_send(a), RpcRequest::ServerGetStatus);
    let a = flow.step(&server_status_response(vec![group_with_clients("g1", &[])]));
    match a {
        Action::Done(out) => assert_eq!(out, "No data to display.\n"),
        other => panic!("expected the overview, got {:?}", other),
    }
}

#[test]
fn delete_client_missing_fails_before_delete() {
    let mut flow = DeleteClientFlow::new("c9".to_string());
    flow.start();
    let a = flow.step(&not_found_response("Client not found"));
    match a {
        Action::Fail(CtlError::EntityNotFound { message }) => {
            assert_eq!(message, "Client not found: Client not found");
        },
        other => panic!("expected failure, got {:?}", other),
    }
}

/// A batch stopped by a missing client reports the offender and which
/// deletions had already taken effect.
#[test]
fn delete_clients_reports_partial_progress() {
    let mut flow = DeleteClientsFlow::new("c1,c2");
    let a = flow.start();
    assert_eq!(
        expect_send(a),
        RpcRequest::ClientGetStatus { id: "c1".to_string() },
    );
    let a = flow.step(&ok_response());
    assert_eq!(
        expect_send(a),
        RpcRequest::ServerDeleteClient { id: "c1".to_string() },
    );
    let a = flow.step(&ok_response());
    assert_eq!(
        expect_send(a),
        RpcRequest::ClientGetStatus { id: "c2".to_string() },
    );
    let a = flow.step(&not_found_response("Client not found"));
    match a {
        Action::Fail(CtlError::EntityNotFound { message }) => {
            assert_eq!(
                message,
                "Client not found: 'c2'. Deleted before the failure: c1",
            );
        },
        other => panic!("expected failure, got {:?}", other),
    }
}

/// A batch whose first client is missing reports that nothing was deleted.
#[test]
fn delete_clients_nothing_deleted_yet() {
    let mut flow = DeleteClientsFlow::new("c9,c1");
    flow.start();
    let a = flow.step(&not_found_response("Client not found"));
    match a {
        Action::Fail(CtlError::EntityNotFound { message }) => {
            assert_eq!(
                message,
                "Client not found: 'c9'. Deleted before the failure: none",
            );
        },
        other => panic!("expected failure, got {:?}", other),
    }
}

/// The request envelope carries an identifier, the protocol version, the
/// method name and the parameters.
#[test]
fn envelope_shape() {
    let req = RpcRequest::ClientSetName { id: "c1".to_string(), name: "X".to_string() };
    let env = snapctl::rpc::make_envelope(&req);
    assert_eq!(env.get_str("jsonrpc"), Some("2.0"));
    assert_eq!(env.get_str("method"), Some("Client.SetName"));
    assert!(env.get_str("id").is_some());
    let params = env.get("params").expect("the method takes parameters");
    assert_eq!(params.get_str("id"), Some("c1"));
    assert_eq!(params.get_str("name"), Some("X"));
    // two envelopes of the same request differ in their identifier only
    let env2 = snapctl::rpc::make_envelope(&req);
    assert_eq!(env2.get_str("method"), Some("Client.SetName"));
}

/// The mute confirmation shows the value the server reported back.
#[test]
fn set_group_mute_reads_reply() {
    let mut flow = SetGroupFlow::new(SetGroupParams {
        group_id: "g1".to_string(),
        name: None,
        mute: Some(true),
        stream_id: None,
        clients: None,
    });
    flow.start();
    let a = flow.step(&group_status_response("g1", "alpha", "s1", &["c1"]));
    assert_eq!(
        expect_send(a),
        RpcRequest::GroupSetMute { id: "g1".to_string(), mute: true },
    );
    let reply = obj(vec![("result", obj(vec![("mute", Json::Bool(true))]))]);
    let a = flow.step(&reply);
    match a {
        Action::Done(table) => {
            assert!(table.contains("true"));
            assert!(table.contains("alpha"));
            assert!(table.contains("c1"));
        },
        other => panic!("expected the confirmation table, got {:?}", other),
    }
}

/// An unknown error code also stops the pipeline, code and message kept.
#[test]
fn set_group_stops_on_unknown_error() {
    let mut flow = SetGroupFlow::new(SetGroupParams {
        group_id: "g1".to_string(),
        name: Some("louder".to_string()),
        mute: None,
        stream_id: None,
        clients: None,
    });
    flow.start();
    let reply = obj(vec![(
        "error",
        obj(vec![("code", Json::Int(-32000)), ("message", s("boom"))]),
    )]);
    let a = flow.step(&reply);
    match a {
        Action::Fail(CtlError::UnknownRpc { code, message }) => {
            assert_eq!(code, Some(-32000));
            assert_eq!(message, "boom");
        },
        other => panic!("expected failure, got {:?}", other),
    }
}

/// The handle keeps the address it was given.
#[test]
fn rpc_client_holds_url() {
    let url = snapctl::rpc::get_server_url("127.0.0.1", 1780);
    assert_eq!(url, "ws://127.0.0.1:1780/jsonrpc");
    let client = snapctl::rpc::SnapcastRpcClient::new(&url);
    assert_eq!(client.url(), "ws://127.0.0.1:1780/jsonrpc");
}

/// A volume envelope carries only the supplied parts, muted before percent.
#[test]
fn envelope_volume_parts() {
    let req = RpcRequest::ClientSetVolume {
        id: "c1".to_string(),
        muted: None,
        percent: Some(55),
    };
    let env = snapctl::rpc::make_envelope(&req);
    assert_eq!(env.get_str("method"), Some("Client.SetVolume"));
    let params = env.get("params").expect("the method takes parameters");
    let volume = params.get("volume").expect("the volume object");
    assert_eq!(volume.get_i64("percent"), Some(55));
    assert!(volume.get("muted").is_none());
}
