//! Requests of the control protocol: the methods the server understands,
//! their parameter objects, and the envelope each request travels in.  One
//! envelope is sent per connection; its identifier is fresh on every call.

use vstd::prelude::*;
use vstd::string::StringExecFns;
use crate::json::{Json, spec_as_str, spec_get2};
use crate::numfmt::{spec_dec_nat, u64_to_string};
use crate::error::{CtlError, CtlErrorV};

verus! {

/// One call of the control protocol, with its parameters as plain values.
#[derive(Debug, PartialEq, Eq)]
pub enum RpcRequest {
    ServerGetStatus,
    ServerDeleteClient { id: String },
    ClientGetStatus { id: String },
    ClientSetName { id: String, name: String },
    ClientSetVolume { id: String, muted: Option<bool>, percent: Option<i64> },
    ClientSetLatency { id: String, latency: i64 },
    GroupGetStatus { id: String },
    GroupSetName { id: String, name: String },
    GroupSetMute { id: String, mute: bool },
    GroupSetStream { id: String, stream_id: String },
    GroupSetClients { id: String, clients: Vec<String> },
}

/// The mathematical image of a request.
pub enum RpcRequestV {
    ServerGetStatus,
    ServerDeleteClient { id: Seq<char> },
    ClientGetStatus { id: Seq<char> },
    ClientSetName { id: Seq<char>, name: Seq<char> },
    ClientSetVolume { id: Seq<char>, muted: Option<bool>, percent: Option<i64> },
    ClientSetLatency { id: Seq<char>, latency: i64 },
    GroupGetStatus { id: Seq<char> },
    GroupSetName { id: Seq<char>, name: Seq<char> },
    GroupSetMute { id: Seq<char>, mute: bool },
    GroupSetStream { id: Seq<char>, stream_id: Seq<char> },
    GroupSetClients { id: Seq<char>, clients: Seq<Seq<char>> },
}

impl View for RpcRequest {
    type V = RpcRequestV;

    open spec fn view(&self) -> RpcRequestV {
        match self {
            RpcRequest::ServerGetStatus => RpcRequestV::ServerGetStatus,
            RpcRequest::ServerDeleteClient { id } => RpcRequestV::ServerDeleteClient { id: id@ },
            RpcRequest::ClientGetStatus { id } => RpcRequestV::ClientGetStatus { id: id@ },
            RpcRequest::ClientSetName { id, name } => RpcRequestV::ClientSetName {
                id: id@,
                name: name@,
            },
            RpcRequest::ClientSetVolume { id, muted, percent } => RpcRequestV::ClientSetVolume {
                id: id@,
                muted: *muted,
                percent: *percent,
            },
            RpcRequest::ClientSetLatency { id, latency } => RpcRequestV::ClientSetLatency {
                id: id@,
                latency: *latency,
            },
            RpcRequest::GroupGetStatus { id } => RpcRequestV::GroupGetStatus { id: id@ },
            RpcRequest::GroupSetName { id, name } => RpcRequestV::GroupSetName {
                id: id@,
                name: name@,
            },
            RpcRequest::GroupSetMute { id, mute } => RpcRequestV::GroupSetMute {
                id: id@,
                mute: *mute,
            },
            RpcRequest::GroupSetStream { id, stream_id } => RpcRequestV::GroupSetStream {
                id: id@,
                stream_id: stream_id@,
            },
            RpcRequest::GroupSetClients { id, clients } => RpcRequestV::GroupSetClients {
                id: id@,
                clients: clients.deep_view(),
            },
        }
    }
}

/// The wire name of the method a request calls.
pub open spec fn spec_method_name(r: RpcRequestV) -> Seq<char> {
    match r {
        RpcRequestV::ServerGetStatus => "Server.GetStatus"@,
        RpcRequestV::ServerDeleteClient { .. } => "Server.DeleteClient"@,
        RpcRequestV::ClientGetStatus { .. } => "Client.GetStatus"@,
        RpcRequestV::ClientSetName { .. } => "Client.SetName"@,
        RpcRequestV::ClientSetVolume { .. } => "Client.SetVolume"@,
        RpcRequestV::ClientSetLatency { .. } => "Client.SetLatency"@,
        RpcRequestV::GroupGetStatus { .. } => "Group.GetStatus"@,
        RpcRequestV::GroupSetName { .. } => "Group.SetName"@,
        RpcRequestV::GroupSetMute { .. } => "Group.SetMute"@,
        RpcRequestV::GroupSetStream { .. } => "Group.SetStream"@,
        RpcRequestV::GroupSetClients { .. } => "Group.SetClients"@,
    }
}

/// The wire name of the method a request calls.
pub fn method_name(req: &RpcRequest) -> (r: &'static str)
    ensures
        r@ == spec_method_name(req@),
{
    match req {
        RpcRequest::ServerGetStatus => "Server.GetStatus",
        RpcRequest::ServerDeleteClient { .. } => "Server.DeleteClient",
        RpcRequest::ClientGetStatus { .. } => "Client.GetStatus",
        RpcRequest::ClientSetName { .. } => "Client.SetName",
        RpcRequest::ClientSetVolume { .. } => "Client.SetVolume",
        RpcRequest::ClientSetLatency { .. } => "Client.SetLatency",
        RpcRequest::GroupGetStatus { .. } => "Group.GetStatus",
        RpcRequest::GroupSetName { .. } => "Group.SetName",
        RpcRequest::GroupSetMute { .. } => "Group.SetMute",
        RpcRequest::GroupSetStream { .. } => "Group.SetStream",
        RpcRequest::GroupSetClients { .. } => "Group.SetClients",
    }
}

/// An object node holding exactly one string member.
pub open spec fn obj1_str(p: Json, k: Seq<char>, v: Seq<char>) -> bool {
    match p {
        Json::Obj(fs) => fs@.len() == 1 && fs@[0].0@ == k && spec_as_str(fs@[0].1) == Some(v),
        _ => false,
    }
}

/// The string sequence held by a sequence node of string nodes.
pub open spec fn str_arr_is(p: Json, items: Seq<Seq<char>>) -> bool {
    match p {
        Json::Arr(xs) => xs@.len() == items.len() && forall|k: int|
            0 <= k < xs@.len() ==> spec_as_str(#[trigger] xs@[k]) == Some(items[k]),
        _ => false,
    }
}

/// The volume member of a volume-setting request: the supplied parts and
/// nothing else, muted before percent.
pub open spec fn volume_obj_is(p: Json, muted: Option<bool>, percent: Option<i64>) -> bool {
    match p {
        Json::Obj(fs) => match (muted, percent) {
            (Some(m), Some(pc)) => fs@.len() == 2 && fs@[0].0@ == "muted"@ && fs@[0].1
                == Json::Bool(m) && fs@[1].0@ == "percent"@ && fs@[1].1 == Json::Int(pc),
            (Some(m), None) => fs@.len() == 1 && fs@[0].0@ == "muted"@ && fs@[0].1 == Json::Bool(m),
            (None, Some(pc)) => fs@.len() == 1 && fs@[0].0@ == "percent"@ && fs@[0].1 == Json::Int(
                pc,
            ),
            (None, None) => fs@.len() == 0,
        },
        _ => false,
    }
}

/// The parameter object owed by each request.
pub open spec fn spec_params_ok(p: Json, r: RpcRequestV) -> bool {
    match r {
        RpcRequestV::ServerGetStatus => true,
        RpcRequestV::ServerDeleteClient { id } => obj1_str(p, "id"@, id),
        RpcRequestV::ClientGetStatus { id } => obj1_str(p, "id"@, id),
        RpcRequestV::GroupGetStatus { id } => obj1_str(p, "id"@, id),
        RpcRequestV::ClientSetName { id, name } => match p {
            Json::Obj(fs) => fs@.len() == 2 && fs@[0].0@ == "id"@ && spec_as_str(fs@[0].1) == Some(
                id,
            ) && fs@[1].0@ == "name"@ && spec_as_str(fs@[1].1) == Some(name),
            _ => false,
        },
        RpcRequestV::ClientSetVolume { id, muted, percent } => match p {
            Json::Obj(fs) => fs@.len() == 2 && fs@[0].0@ == "id"@ && spec_as_str(fs@[0].1) == Some(
                id,
            ) && fs@[1].0@ == "volume"@ && volume_obj_is(fs@[1].1, muted, percent),
            _ => false,
        },
        RpcRequestV::ClientSetLatency { id, latency } => match p {
            Json::Obj(fs) => fs@.len() == 2 && fs@[0].0@ == "id"@ && spec_as_str(fs@[0].1) == Some(
                id,
            ) && fs@[1].0@ == "latency"@ && fs@[1].1 == Json::Int(latency),
            _ => false,
        },
        RpcRequestV::GroupSetName { id, name } => match p {
            Json::Obj(fs) => fs@.len() == 2 && fs@[0].0@ == "id"@ && spec_as_str(fs@[0].1) == Some(
                id,
            ) && fs@[1].0@ == "name"@ && spec_as_str(fs@[1].1) == Some(name),
            _ => false,
        },
        RpcRequestV::GroupSetMute { id, mute } => match p {
            Json::Obj(fs) => fs@.len() == 2 && fs@[0].0@ == "id"@ && spec_as_str(fs@[0].1) == Some(
                id,
            ) && fs@[1].0@ == "mute"@ && fs@[1].1 == Json::Bool(mute),
            _ => false,
        },
        RpcRequestV::GroupSetStream { id, stream_id } => match p {
            Json::Obj(fs) => fs@.len() == 2 && fs@[0].0@ == "id"@ && spec_as_str(fs@[0].1) == Some(
                id,
            ) && fs@[1].0@ == "stream_id"@ && spec_as_str(fs@[1].1) == Some(stream_id),
            _ => false,
        },
        RpcRequestV::GroupSetClients { id, clients } => match p {
            Json::Obj(fs) => fs@.len() == 2 && fs@[0].0@ == "id"@ && spec_as_str(fs@[0].1) == Some(
                id,
            ) && fs@[1].0@ == "clients"@ && str_arr_is(fs@[1].1, clients),
            _ => false,
        },
    }
}

/// Whether the request travels with a parameter object at all.
pub open spec fn spec_has_params(r: RpcRequestV) -> bool {
    !(r is ServerGetStatus)
}

/// A full request envelope: a fresh identifier, the protocol version, the
/// method name, and the parameter object when the method takes one.
pub open spec fn spec_envelope_ok(j: Json, r: RpcRequestV) -> bool {
    match j {
        Json::Obj(fs) => {
            &&& fs@.len() == (if spec_has_params(r) {
                4int
            } else {
                3int
            })
            &&& fs@[0].0@ == "id"@
            &&& fs@[0].1 is Str
            &&& fs@[1].0@ == "jsonrpc"@
            &&& spec_as_str(fs@[1].1) == Some("2.0"@)
            &&& fs@[2].0@ == "method"@
            &&& spec_as_str(fs@[2].1) == Some(spec_method_name(r))
            &&& (spec_has_params(r) ==> fs@[3].0@ == "params"@ && spec_params_ok(fs@[3].1, r))
        },
        _ => false,
    }
}

/// Relies on `uuid::Uuid::new_v4` and its rendering through `Display`: a
/// freshly generated random identifier.  Nothing is promised of the result;
/// callers use it only as an opaque correlation identifier.
#[verifier::external_body]
fn fresh_request_id() -> String {
    uuid::Uuid::new_v4().to_string()
}

fn str_field(key: &str, value: String) -> (r: (String, Json))
    ensures
        r.0@ == key@,
        spec_as_str(r.1) == Some(value@),
{
    (key.to_owned(), Json::Str(value))
}

/// Builds the parameter object of a request.
fn build_params(req: &RpcRequest) -> (p: Json)
    ensures
        spec_params_ok(p, req@),
{
    match req {
        RpcRequest::ServerGetStatus => Json::Null,
        RpcRequest::ServerDeleteClient { id } => {
            let fields = vec![str_field("id", id.clone())];
            Json::Obj(fields)
        },
        RpcRequest::ClientGetStatus { id } => {
            let fields = vec![str_field("id", id.clone())];
            Json::Obj(fields)
        },
        RpcRequest::GroupGetStatus { id } => {
            let fields = vec![str_field("id", id.clone())];
            Json::Obj(fields)
        },
        RpcRequest::ClientSetName { id, name } => {
            let fields = vec![str_field("id", id.clone()), str_field("name", name.clone())];
            Json::Obj(fields)
        },
        RpcRequest::ClientSetVolume { id, muted, percent } => {
            let mut vol: Vec<(String, Json)> = Vec::new();
            if let Some(m) = muted {
                vol.push(("muted".to_owned(), Json::Bool(*m)));
            }
            if let Some(pc) = percent {
                vol.push(("percent".to_owned(), Json::Int(*pc)));
            }
            let fields = vec![str_field("id", id.clone()), ("volume".to_owned(), Json::Obj(vol))];
            Json::Obj(fields)
        },
        RpcRequest::ClientSetLatency { id, latency } => {
            let fields = vec![
                str_field("id", id.clone()),
                ("latency".to_owned(), Json::Int(*latency)),
            ];
            Json::Obj(fields)
        },
        RpcRequest::GroupSetName { id, name } => {
            let fields = vec![str_field("id", id.clone()), str_field("name", name.clone())];
            Json::Obj(fields)
        },
        RpcRequest::GroupSetMute { id, mute } => {
            let fields = vec![str_field("id", id.clone()), ("mute".to_owned(), Json::Bool(*mute))];
            Json::Obj(fields)
        },
        RpcRequest::GroupSetStream { id, stream_id } => {
            let fields = vec![
                str_field("id", id.clone()),
                str_field("stream_id", stream_id.clone()),
            ];
            Json::Obj(fields)
        },
        RpcRequest::GroupSetClients { id, clients } => {
            let n = clients.len();
            let mut items: Vec<Json> = Vec::new();
            let mut i: usize = 0;
            while i < n
                invariant
                    n == clients@.len(),
                    i <= n,
                    items@.len() == i,
                    forall|k: int|
                        0 <= k < i ==> spec_as_str(#[trigger] items@[k]) == Some(
                            clients.deep_view()[k],
                        ),
                decreases n - i,
            {
                items.push(Json::Str(clients[i].clone()));
                i += 1;
            }
            let fields = vec![
                str_field("id", id.clone()),
                ("clients".to_owned(), Json::Arr(items)),
            ];
            Json::Obj(fields)
        },
    }
}

/// Builds the envelope that carries `req`: a fresh identifier, the protocol
/// version, the method name and the parameters.
pub fn make_envelope(req: &RpcRequest) -> (j: Json)
    ensures
        spec_envelope_ok(j, req@),
{
    let mut fields: Vec<(String, Json)> = Vec::new();
    fields.push(("id".to_owned(), Json::Str(fresh_request_id())));
    fields.push(("jsonrpc".to_owned(), Json::Str("2.0".to_owned())));
    fields.push(("method".to_owned(), Json::Str(method_name(req).to_owned())));
    let has_params = match req {
        RpcRequest::ServerGetStatus => false,
        _ => true,
    };
    if has_params {
        fields.push(("params".to_owned(), build_params(req)));
    }
    Json::Obj(fields)
}

/// A handle on one server: nothing more than where to connect.  The
/// transport that opens the connection lives outside the library.
pub struct SnapcastRpcClient {
    server_url: String,
}

impl View for SnapcastRpcClient {
    type V = Seq<char>;

    closed spec fn view(&self) -> Seq<char> {
        self.server_url@
    }
}

impl SnapcastRpcClient {
    /// A handle on the server reached at `server_url`.
    pub fn new(server_url: &str) -> (c: Self)
        ensures
            c@ == server_url@,
    {
        SnapcastRpcClient { server_url: server_url.to_owned() }
    }

    /// Where this handle connects.
    pub fn url(&self) -> (r: &str)
        ensures
            r@ == self@,
    {
        self.server_url.as_str()
    }
}

/// The address of the control channel on `host` and `port`.
pub fn get_server_url(host: &str, port: u16) -> (r: String)
    ensures
        r@ == "ws://"@ + host@ + ":"@ + spec_dec_nat(port as nat) + "/jsonrpc"@,
{
    let mut s = "ws://".to_owned();
    s.append(host);
    s.append(":");
    s.append(u64_to_string(port as u64).as_str());
    s.append("/jsonrpc");
    s
}

/// The `result.server` subtree of a full status reply, owed by the protocol.
pub fn extract_server<'a>(resp: &'a Json) -> (r: Result<&'a Json, CtlError>)
    ensures
        match r {
            Ok(server) => spec_get2(*resp, "result"@, "server"@) == Some(*server),
            Err(e) => spec_get2(*resp, "result"@, "server"@) is None && e@ == (
            CtlErrorV::Protocol {
                message: "Failed to get server information from response"@,
            }),
        },
{
    match resp.get2("result", "server") {
        Some(server) => Ok(server),
        None => Err(
            CtlError::Protocol {
                message: "Failed to get server information from response".to_owned(),
            },
        ),
    }
}

/// What an orchestration step asks of its driver: send a request and come
/// back with the reply, stop and print the rendered result, or stop and
/// report the failure.
#[derive(Debug, PartialEq, Eq)]
pub enum Action {
    Send(RpcRequest),
    Done(String),
    Fail(CtlError),
}

/// The mathematical image of an action.
pub enum ActionV {
    Send(RpcRequestV),
    Done(Seq<char>),
    Fail(CtlErrorV),
}

impl View for Action {
    type V = ActionV;

    open spec fn view(&self) -> ActionV {
        match self {
            Action::Send(req) => ActionV::Send(req@),
            Action::Done(s) => ActionV::Done(s@),
            Action::Fail(e) => ActionV::Fail(e@),
        }
    }
}

} // verus!
