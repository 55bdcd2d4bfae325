//! The group-mutation orchestration: name, mute, stream assignment and
//! member-list replacement, issued in that fixed order, each only when
//! supplied, with a failure cutting the rest short.  The `none`/`null`
//! sentinel clears the name or stream to the empty string and the member
//! list to the empty list — distinguishing "not supplied, leave unchanged"
//! from "explicitly cleared".

use vstd::prelude::*;
use vstd::string::StringExecFns;
use crate::json::{Json, spec_get, spec_get2, spec_get_str, spec_get_bool};
use crate::classify::{spec_classify, classify_response, spec_fail_of, fail_of, Classification};
use crate::error::{CtlError, CtlErrorV};
use crate::rpc::{RpcRequest, RpcRequestV, Action, ActionV};
use crate::lookup::{spec_group_clients, spec_client_ids_of, group_client_ids};
use crate::strutil::{
    is_clear_sentinel,
    is_clear_token,
    spec_parse_list,
    parse_id_list,
    spec_join,
    join_strings,
};
use crate::table::{spec_render_table, render_table};

verus! {

/// What a group mutation may change; an absent field is left untouched.
#[derive(Debug)]
pub struct SetGroupParams {
    pub group_id: String,
    pub name: Option<String>,
    pub mute: Option<bool>,
    pub stream_id: Option<String>,
    pub clients: Option<String>,
}

/// The mathematical image of the parameters.
pub struct SetGroupParamsV {
    pub group_id: Seq<char>,
    pub name: Option<Seq<char>>,
    pub mute: Option<bool>,
    pub stream_id: Option<Seq<char>>,
    pub clients: Option<Seq<char>>,
}

impl View for SetGroupParams {
    type V = SetGroupParamsV;

    open spec fn view(&self) -> SetGroupParamsV {
        SetGroupParamsV {
            group_id: self.group_id@,
            name: match &self.name {
                Some(n) => Some(n@),
                None => None,
            },
            mute: self.mute,
            stream_id: match &self.stream_id {
                Some(s) => Some(s@),
                None => None,
            },
            clients: match &self.clients {
                Some(c) => Some(c@),
                None => None,
            },
        }
    }
}

/// Where the orchestration stands: which request is outstanding.
#[derive(Debug, PartialEq, Eq, Structural, Clone, Copy)]
pub enum SetGroupPhase {
    Start,
    AwaitGroupCheck,
    AwaitSetName,
    AwaitSetMute,
    AwaitSetStream,
    AwaitSetClients,
    Done,
    Failed,
}

/// A phase in which a request is outstanding and a reply is owed.
pub open spec fn spec_group_in_flight(p: SetGroupPhase) -> bool {
    !(p == SetGroupPhase::Start || p == SetGroupPhase::Done || p == SetGroupPhase::Failed)
}

/// The orchestration state: the intent and the field values to display in
/// the confirmation table.
#[derive(Debug)]
pub struct SetGroupFlow {
    pub params: SetGroupParams,
    pub phase: SetGroupPhase,
    pub final_name: Option<String>,
    pub final_muted: Option<bool>,
    pub final_stream: Option<String>,
    pub final_clients: Vec<String>,
}

/// The mathematical image of the orchestration state.
pub struct SetGroupFlowV {
    pub params: SetGroupParamsV,
    pub phase: SetGroupPhase,
    pub final_name: Option<Seq<char>>,
    pub final_muted: Option<bool>,
    pub final_stream: Option<Seq<char>>,
    pub final_clients: Seq<Seq<char>>,
}

impl View for SetGroupFlow {
    type V = SetGroupFlowV;

    open spec fn view(&self) -> SetGroupFlowV {
        SetGroupFlowV {
            params: self.params@,
            phase: self.phase,
            final_name: match &self.final_name {
                Some(n) => Some(n@),
                None => None,
            },
            final_muted: self.final_muted,
            final_stream: match &self.final_stream {
                Some(s) => Some(s@),
                None => None,
            },
            final_clients: self.final_clients.deep_view(),
        }
    }
}

/// The state a fresh orchestration starts in.
pub open spec fn spec_group_initial(p: SetGroupParamsV) -> SetGroupFlowV {
    SetGroupFlowV {
        params: p,
        phase: SetGroupPhase::Start,
        final_name: None,
        final_muted: None,
        final_stream: None,
        final_clients: Seq::empty(),
    }
}

/// The name actually sent: the sentinel clears to the empty string.
pub open spec fn spec_name_to_set(p: SetGroupParamsV) -> Seq<char> {
    match p.name {
        Some(n) => if is_clear_sentinel(n) {
            ""@
        } else {
            n
        },
        None => ""@,
    }
}

/// The stream actually sent: the sentinel clears to the empty string.
pub open spec fn spec_stream_to_set(p: SetGroupParamsV) -> Seq<char> {
    match p.stream_id {
        Some(s) => if is_clear_sentinel(s) {
            ""@
        } else {
            s
        },
        None => ""@,
    }
}

/// The member list actually sent: the sentinel clears to the empty list,
/// anything else is read as a comma-separated list of identifiers.
pub open spec fn spec_clients_to_set(p: SetGroupParamsV) -> Seq<Seq<char>> {
    match p.clients {
        Some(c) => if is_clear_sentinel(c) {
            Seq::empty()
        } else {
            spec_parse_list(c)
        },
        None => Seq::empty(),
    }
}

/// Whether the invocation supplied anything to change.
pub open spec fn spec_any_param(p: SetGroupParamsV) -> bool {
    p.name is Some || p.mute is Some || p.stream_id is Some || p.clients is Some
}

/// The header row of the confirmation table.
pub open spec fn spec_set_group_headers() -> Seq<Seq<char>> {
    seq!["GROUP ID"@, "NAME"@, "MUTED"@, "STREAM ID"@, "CLIENTS"@]
}

/// The confirmation table of a finished group mutation.
pub open spec fn spec_group_result_table(f: SetGroupFlowV) -> Seq<char> {
    spec_render_table(
        spec_set_group_headers(),
        seq![
            seq![
                f.params.group_id,
                match f.final_name {
                    Some(n) => n,
                    None => "unknown"@,
                },
                match f.final_muted {
                    Some(true) => "true"@,
                    Some(false) => "false"@,
                    None => "unknown"@,
                },
                match f.final_stream {
                    Some(s) => s,
                    None => "none"@,
                },
                spec_join(f.final_clients, ", "@),
            ],
        ],
    )
}

/// The guidance printed when nothing was supplied to change.
pub open spec fn spec_no_params_note() -> Seq<char> {
    "No parameters specified to set. Use --name, --mute, --stream-id, or --clients.\n"@
}

/// The next request of the fixed pipeline — name, then mute, then stream,
/// then members — starting the search at `stage`; past the last it renders
/// the confirmation, or the guidance when nothing was supplied.
pub open spec fn spec_group_advance(f: SetGroupFlowV, stage: int) -> (SetGroupFlowV, ActionV) {
    let p = f.params;
    if stage <= 0 && p.name is Some {
        (
            SetGroupFlowV { phase: SetGroupPhase::AwaitSetName, ..f },
            ActionV::Send(
                RpcRequestV::GroupSetName { id: p.group_id, name: spec_name_to_set(p) },
            ),
        )
    } else if stage <= 1 && p.mute is Some {
        (
            SetGroupFlowV { phase: SetGroupPhase::AwaitSetMute, ..f },
            ActionV::Send(RpcRequestV::GroupSetMute { id: p.group_id, mute: p.mute->Some_0 }),
        )
    } else if stage <= 2 && p.stream_id is Some {
        (
            SetGroupFlowV { phase: SetGroupPhase::AwaitSetStream, ..f },
            ActionV::Send(
                RpcRequestV::GroupSetStream { id: p.group_id, stream_id: spec_stream_to_set(p) },
            ),
        )
    } else if stage <= 3 && p.clients is Some {
        (
            SetGroupFlowV { phase: SetGroupPhase::AwaitSetClients, ..f },
            ActionV::Send(
                RpcRequestV::GroupSetClients { id: p.group_id, clients: spec_clients_to_set(p) },
            ),
        )
    } else {
        (
            SetGroupFlowV { phase: SetGroupPhase::Done, ..f },
            ActionV::Done(
                if !spec_any_param(p) {
                    spec_no_params_note()
                } else {
                    spec_group_result_table(f)
                },
            ),
        )
    }
}

/// The orchestration stopped by the failure `e`.
pub open spec fn spec_group_failed(f: SetGroupFlowV, e: CtlErrorV) -> (SetGroupFlowV, ActionV) {
    (SetGroupFlowV { phase: SetGroupPhase::Failed, ..f }, ActionV::Fail(e))
}

/// One step of the orchestration.
pub open spec fn spec_group_step(f: SetGroupFlowV, resp: Json) -> (SetGroupFlowV, ActionV) {
    let cls = spec_classify(resp);
    let p = f.params;
    match f.phase {
        SetGroupPhase::AwaitGroupCheck => if !(cls is Success) {
            spec_group_failed(f, spec_fail_of(cls, "Group not found"@, "Group not found"@))
        } else {
            let f1 = match spec_get2(resp, "result"@, "group"@) {
                Some(g) => SetGroupFlowV {
                    final_name: spec_get_str(g, "name"@),
                    final_muted: spec_get_bool(g, "muted"@),
                    final_stream: spec_get_str(g, "stream_id"@),
                    final_clients: spec_client_ids_of(spec_group_clients(g)),
                    ..f
                },
                None => f,
            };
            spec_group_advance(f1, 0)
        },
        SetGroupPhase::AwaitSetName => if !(cls is Success) {
            spec_group_failed(
                f,
                spec_fail_of(
                    cls,
                    "Failed to set group name"@,
                    "Failed to set group name: Group not found"@,
                ),
            )
        } else {
            spec_group_advance(SetGroupFlowV { final_name: Some(spec_name_to_set(p)), ..f }, 1)
        },
        SetGroupPhase::AwaitSetMute => if !(cls is Success) {
            spec_group_failed(
                f,
                spec_fail_of(
                    cls,
                    "Failed to set group mute status"@,
                    "Failed to set group mute status: Group not found"@,
                ),
            )
        } else {
            let f1 = match spec_get(resp, "result"@) {
                Some(r) => SetGroupFlowV { final_muted: spec_get_bool(r, "mute"@), ..f },
                None => f,
            };
            spec_group_advance(f1, 2)
        },
        SetGroupPhase::AwaitSetStream => if !(cls is Success) {
            spec_group_failed(
                f,
                spec_fail_of(
                    cls,
                    "Failed to set group stream"@,
                    "Failed to set group stream: Group not found"@,
                ),
            )
        } else {
            let f1 = match spec_get(resp, "result"@) {
                Some(r) => SetGroupFlowV { final_stream: spec_get_str(r, "stream_id"@), ..f },
                None => f,
            };
            spec_group_advance(f1, 3)
        },
        SetGroupPhase::AwaitSetClients => if !(cls is Success) {
            spec_group_failed(
                f,
                spec_fail_of(
                    cls,
                    "Failed to set group clients"@,
                    "Failed to set group clients: Group not found"@,
                ),
            )
        } else {
            spec_group_advance(
                SetGroupFlowV { final_clients: spec_clients_to_set(p), ..f },
                4,
            )
        },
        _ => (f, ActionV::Fail(CtlErrorV::Protocol { message: ""@ })),
    }
}

fn name_to_set(params: &SetGroupParams) -> (r: String)
    ensures
        r@ == spec_name_to_set(params@),
{
    match &params.name {
        Some(n) => {
            if is_clear_token(n.as_str()) {
                "".to_owned()
            } else {
                n.clone()
            }
        },
        None => "".to_owned(),
    }
}

fn stream_to_set(params: &SetGroupParams) -> (r: String)
    ensures
        r@ == spec_stream_to_set(params@),
{
    match &params.stream_id {
        Some(s) => {
            if is_clear_token(s.as_str()) {
                "".to_owned()
            } else {
                s.clone()
            }
        },
        None => "".to_owned(),
    }
}

fn clients_to_set(params: &SetGroupParams) -> (r: Vec<String>)
    ensures
        r.deep_view() == spec_clients_to_set(params@),
{
    match &params.clients {
        Some(c) => {
            if is_clear_token(c.as_str()) {
                let r: Vec<String> = Vec::new();
                proof {
                    assert(r.deep_view() =~= Seq::<Seq<char>>::empty());
                }
                r
            } else {
                parse_id_list(c.as_str())
            }
        },
        None => {
            let r: Vec<String> = Vec::new();
            proof {
                assert(r.deep_view() =~= Seq::<Seq<char>>::empty());
            }
            r
        },
    }
}

impl SetGroupFlow {
    /// A fresh orchestration of the given intent.
    pub fn new(params: SetGroupParams) -> (f: Self)
        ensures
            f@ == spec_group_initial(params@),
    {
        let f = SetGroupFlow {
            params,
            phase: SetGroupPhase::Start,
            final_name: None,
            final_muted: None,
            final_stream: None,
            final_clients: Vec::new(),
        };
        proof {
            assert(f.final_clients.deep_view() =~= Seq::<Seq<char>>::empty());
        }
        f
    }

    /// Opens the orchestration: the group's current state is fetched first,
    /// both to verify it exists and to seed the confirmation table.
    pub fn start(&mut self) -> (a: Action)
        requires
            old(self).phase == SetGroupPhase::Start,
        ensures
            final(self)@ == (SetGroupFlowV {
                phase: SetGroupPhase::AwaitGroupCheck,
                ..old(self)@
            }),
            a@ == ActionV::Send(RpcRequestV::GroupGetStatus { id: old(self)@.params.group_id }),
    {
        self.phase = SetGroupPhase::AwaitGroupCheck;
        Action::Send(RpcRequest::GroupGetStatus { id: self.params.group_id.clone() })
    }

    /// Consumes the reply to the outstanding request and decides what
    /// happens next.
    pub fn step(&mut self, resp: &Json) -> (a: Action)
        requires
            spec_group_in_flight(old(self).phase),
        ensures
            (final(self)@, a@) == spec_group_step(old(self)@, *resp),
    {
        let cls = classify_response(resp);
        match self.phase {
            SetGroupPhase::AwaitGroupCheck => {
                if !matches!(cls, Classification::Success) {
                    self.phase = SetGroupPhase::Failed;
                    Action::Fail(fail_of(cls, "Group not found", "Group not found"))
                } else {
                    match resp.get2("result", "group") {
                        Some(g) => {
                            self.final_name = match g.get_str("name") {
                                Some(n) => Some(n.to_owned()),
                                None => None,
                            };
                            self.final_muted = match g.get("muted") {
                                Some(m) => m.as_bool(),
                                None => None,
                            };
                            self.final_stream = match g.get_str("stream_id") {
                                Some(s) => Some(s.to_owned()),
                                None => None,
                            };
                            self.final_clients = group_client_ids(g);
                        },
                        None => {},
                    }
                    self.advance(0)
                }
            },
            SetGroupPhase::AwaitSetName => {
                if !matches!(cls, Classification::Success) {
                    self.phase = SetGroupPhase::Failed;
                    Action::Fail(
                        fail_of(
                            cls,
                            "Failed to set group name",
                            "Failed to set group name: Group not found",
                        ),
                    )
                } else {
                    self.final_name = Some(name_to_set(&self.params));
                    self.advance(1)
                }
            },
            SetGroupPhase::AwaitSetMute => {
                if !matches!(cls, Classification::Success) {
                    self.phase = SetGroupPhase::Failed;
                    Action::Fail(
                        fail_of(
                            cls,
                            "Failed to set group mute status",
                            "Failed to set group mute status: Group not found",
                        ),
                    )
                } else {
                    match resp.get("result") {
                        Some(r) => {
                            self.final_muted = match r.get("mute") {
                                Some(m) => m.as_bool(),
                                None => None,
                            };
                        },
                        None => {},
                    }
                    self.advance(2)
                }
            },
            SetGroupPhase::AwaitSetStream => {
                if !matches!(cls, Classification::Success) {
                    self.phase = SetGroupPhase::Failed;
                    Action::Fail(
                        fail_of(
                            cls,
                            "Failed to set group stream",
                            "Failed to set group stream: Group not found",
                        ),
                    )
                } else {
                    match resp.get("result") {
                        Some(r) => {
                            self.final_stream = match r.get_str("stream_id") {
                                Some(s) => Some(s.to_owned()),
                                None => None,
                            };
                        },
                        None => {},
                    }
                    self.advance(3)
                }
            },
            SetGroupPhase::AwaitSetClients => {
                if !matches!(cls, Classification::Success) {
                    self.phase = SetGroupPhase::Failed;
                    Action::Fail(
                        fail_of(
                            cls,
                            "Failed to set group clients",
                            "Failed to set group clients: Group not found",
                        ),
                    )
                } else {
                    self.final_clients = clients_to_set(&self.params);
                    self.advance(4)
                }
            },
            _ => Action::Fail(CtlError::Protocol { message: "".to_owned() }),
        }
    }

    /// Moves to the next request of the fixed pipeline, starting the search
    /// at `stage`.
    fn advance(&mut self, stage: u8) -> (a: Action)
        ensures
            (final(self)@, a@) == spec_group_advance(old(self)@, stage as int),
    {
        if stage <= 0 && self.params.name.is_some() {
            let name = name_to_set(&self.params);
            self.phase = SetGroupPhase::AwaitSetName;
            Action::Send(RpcRequest::GroupSetName { id: self.params.group_id.clone(), name })
        } else if stage <= 1 && self.params.mute.is_some() {
            let mute = match self.params.mute {
                Some(m) => m,
                None => false,
            };
            self.phase = SetGroupPhase::AwaitSetMute;
            Action::Send(RpcRequest::GroupSetMute { id: self.params.group_id.clone(), mute })
        } else if stage <= 2 && self.params.stream_id.is_some() {
            let stream_id = stream_to_set(&self.params);
            self.phase = SetGroupPhase::AwaitSetStream;
            Action::Send(
                RpcRequest::GroupSetStream { id: self.params.group_id.clone(), stream_id },
            )
        } else if stage <= 3 && self.params.clients.is_some() {
            let clients = clients_to_set(&self.params);
            self.phase = SetGroupPhase::AwaitSetClients;
            Action::Send(
                RpcRequest::GroupSetClients { id: self.params.group_id.clone(), clients },
            )
        } else {
            self.phase = SetGroupPhase::Done;
            let any = self.params.name.is_some() || self.params.mute.is_some()
                || self.params.stream_id.is_some() || self.params.clients.is_some();
            if !any {
                Action::Done(
                    "No parameters specified to set. Use --name, --mute, --stream-id, or --clients.\n".to_owned(),
                )
            } else {
                let row = vec![
                    self.params.group_id.clone(),
                    match &self.final_name {
                        Some(n) => n.clone(),
                        None => "unknown".to_owned(),
                    },
                    match self.final_muted {
                        Some(true) => "true".to_owned(),
                        Some(false) => "false".to_owned(),
                        None => "unknown".to_owned(),
                    },
                    match &self.final_stream {
                        Some(s) => s.clone(),
                        None => "none".to_owned(),
                    },
                    join_strings(&self.final_clients, ", "),
                ];
                let headers = vec![
                    "GROUP ID".to_owned(),
                    "NAME".to_owned(),
                    "MUTED".to_owned(),
                    "STREAM ID".to_owned(),
                    "CLIENTS".to_owned(),
                ];
                let rows = vec![row];
                proof {
                    let f0 = old(self)@;
                    assert(headers.deep_view() =~= spec_set_group_headers());
                    assert(rows.deep_view() =~~= seq![
                        seq![
                            f0.params.group_id,
                            match f0.final_name {
                                Some(n) => n,
                                None => "unknown"@,
                            },
                            match f0.final_muted {
                                Some(true) => "true"@,
                                Some(false) => "false"@,
                                None => "unknown"@,
                            },
                            match f0.final_stream {
                                Some(s) => s,
                                None => "none"@,
                            },
                            spec_join(f0.final_clients, ", "@),
                        ],
                    ]);
                }
                Action::Done(render_table(&headers, &rows))
            }
        }
    }
}

} // verus!
