//! The client-mutation orchestration: one user intent — rename, set volume,
//! set latency, move between groups — realized as an ordered sequence of
//! calls against a server with no cross-call transaction.  The sequencing
//! and every decision between two calls live here, as one explicit state
//! machine; a driver outside the library performs each requested send and
//! hands the reply back.
//!
//! The driver calls `start` once and then `step` with the reply to each
//! request the flow asked it to send, until the action is a result or a
//! failure.  A failure leaves the server in whatever state the last
//! successful call produced: there is no rollback.

use vstd::prelude::*;
use crate::json::{Json, spec_get2, spec_get_str};
use crate::classify::{spec_classify, classify_response, spec_fail_of, fail_of, Classification};
use crate::error::{CtlError, CtlErrorV};
use crate::rpc::{RpcRequest, RpcRequestV, Action, ActionV};
use crate::lookup::{
    spec_find_client_group,
    spec_group_clients,
    spec_client_ids_of,
    spec_ids_without,
    spec_ids_with,
    find_client_group,
    group_client_ids,
    ids_without,
    ids_with,
};
use crate::strutil::is_clear_sentinel;
use crate::rows::spec_client_full_table;

verus! {

/// What a client mutation may change; an absent field is left untouched.
#[derive(Debug)]
pub struct SetClientParams {
    pub client_id: String,
    pub mute: Option<bool>,
    pub volume: Option<i64>,
    pub latency: Option<i64>,
    pub name: Option<String>,
    pub group: Option<String>,
}

/// The mathematical image of the parameters.
pub struct SetClientParamsV {
    pub client_id: Seq<char>,
    pub mute: Option<bool>,
    pub volume: Option<i64>,
    pub latency: Option<i64>,
    pub name: Option<Seq<char>>,
    pub group: Option<Seq<char>>,
}

impl View for SetClientParams {
    type V = SetClientParamsV;

    open spec fn view(&self) -> SetClientParamsV {
        SetClientParamsV {
            client_id: self.client_id@,
            mute: self.mute,
            volume: self.volume,
            latency: self.latency,
            name: match &self.name {
                Some(n) => Some(n@),
                None => None,
            },
            group: match &self.group {
                Some(g) => Some(g@),
                None => None,
            },
        }
    }
}

/// Where the orchestration stands: which request is outstanding.
#[derive(Debug, PartialEq, Eq, Structural, Clone, Copy)]
pub enum SetClientPhase {
    Start,
    AwaitClientCheck,
    AwaitSetName,
    AwaitSetVolume,
    AwaitSetLatency,
    AwaitRemoveServerStatus,
    AwaitRemoveGroupStatus,
    AwaitRemoveSetClients,
    AwaitAddGroupStatus,
    AwaitAddSetClients,
    AwaitFinalServerStatus,
    AwaitFinalGroupStatus,
    AwaitFinalClientStatus,
    Done,
    Failed,
}

/// A phase in which a request is outstanding and a reply is owed.
pub open spec fn spec_in_flight(p: SetClientPhase) -> bool {
    !(p == SetClientPhase::Start || p == SetClientPhase::Done || p == SetClientPhase::Failed)
}

/// The orchestration state: the intent, the outstanding request, and the
/// group information gathered so far for the confirmation table.
#[derive(Debug)]
pub struct SetClientFlow {
    pub params: SetClientParams,
    pub phase: SetClientPhase,
    pub group_id: String,
    pub group_name: String,
    pub stream_id: String,
    pub pending_group: String,
}

/// The mathematical image of the orchestration state.
pub struct SetClientFlowV {
    pub params: SetClientParamsV,
    pub phase: SetClientPhase,
    pub group_id: Seq<char>,
    pub group_name: Seq<char>,
    pub stream_id: Seq<char>,
    pub pending_group: Seq<char>,
}

impl View for SetClientFlow {
    type V = SetClientFlowV;

    open spec fn view(&self) -> SetClientFlowV {
        SetClientFlowV {
            params: self.params@,
            phase: self.phase,
            group_id: self.group_id@,
            group_name: self.group_name@,
            stream_id: self.stream_id@,
            pending_group: self.pending_group@,
        }
    }
}

/// The state a fresh orchestration starts in: nothing sent, no group
/// information yet.
pub open spec fn spec_initial(p: SetClientParamsV) -> SetClientFlowV {
    SetClientFlowV {
        params: p,
        phase: SetClientPhase::Start,
        group_id: "N/A"@,
        group_name: "N/A"@,
        stream_id: "N/A"@,
        pending_group: ""@,
    }
}

/// A group token that asks for removal from the current group: empty, or
/// the clear-field sentinel.
pub open spec fn spec_is_remove_token(s: Seq<char>) -> bool {
    s.len() == 0 || is_clear_sentinel(s)
}

/// The next request of the fixed pipeline — name, then volume, then
/// latency, then the group move, then the confirmation fetch — starting the
/// search at `stage`: 0 considers the name, 1 the volume, 2 the latency,
/// 3 the group, and past 3 the confirmation fetch begins.
pub open spec fn spec_advance(f: SetClientFlowV, stage: int) -> (SetClientFlowV, ActionV) {
    let p = f.params;
    if stage <= 0 && p.name is Some {
        (
            SetClientFlowV { phase: SetClientPhase::AwaitSetName, ..f },
            ActionV::Send(
                RpcRequestV::ClientSetName { id: p.client_id, name: p.name->Some_0 },
            ),
        )
    } else if stage <= 1 && (p.mute is Some || p.volume is Some) {
        (
            SetClientFlowV { phase: SetClientPhase::AwaitSetVolume, ..f },
            ActionV::Send(
                RpcRequestV::ClientSetVolume { id: p.client_id, muted: p.mute, percent: p.volume },
            ),
        )
    } else if stage <= 2 && p.latency is Some {
        (
            SetClientFlowV { phase: SetClientPhase::AwaitSetLatency, ..f },
            ActionV::Send(
                RpcRequestV::ClientSetLatency { id: p.client_id, latency: p.latency->Some_0 },
            ),
        )
    } else if stage <= 3 && p.group is Some {
        if spec_is_remove_token(p.group->Some_0) {
            (
                SetClientFlowV { phase: SetClientPhase::AwaitRemoveServerStatus, ..f },
                ActionV::Send(RpcRequestV::ServerGetStatus),
            )
        } else {
            (
                SetClientFlowV { phase: SetClientPhase::AwaitAddGroupStatus, ..f },
                ActionV::Send(RpcRequestV::GroupGetStatus { id: p.group->Some_0 }),
            )
        }
    } else {
        (
            SetClientFlowV { phase: SetClientPhase::AwaitFinalServerStatus, ..f },
            ActionV::Send(RpcRequestV::ServerGetStatus),
        )
    }
}

/// The orchestration stopped by the failure `e`.
pub open spec fn spec_failed(f: SetClientFlowV, e: CtlErrorV) -> (SetClientFlowV, ActionV) {
    (SetClientFlowV { phase: SetClientPhase::Failed, ..f }, ActionV::Fail(e))
}

/// The display fields gathered from a group-status reply: each member
/// overwrites its field only where present.
pub open spec fn spec_absorb_group_info(f: SetClientFlowV, g: Json) -> SetClientFlowV {
    let f1 = match spec_get_str(g, "id"@) {
        Some(id) => SetClientFlowV { group_id: id, ..f },
        None => f,
    };
    let f2 = match spec_get_str(g, "name"@) {
        Some(n) => SetClientFlowV { group_name: n, ..f1 },
        None => f1,
    };
    match spec_get_str(g, "stream_id"@) {
        Some(s) => SetClientFlowV { stream_id: s, ..f2 },
        None => f2,
    }
}

/// The failure raised when a status reply lacks the server subtree.
pub open spec fn spec_no_server_error() -> CtlErrorV {
    CtlErrorV::Protocol { message: "Failed to get server information from response"@ }
}

/// One step of the orchestration: what the reply to the outstanding request
/// decides, and which request goes out next.
pub open spec fn spec_step(f: SetClientFlowV, resp: Json) -> (SetClientFlowV, ActionV) {
    let cls = spec_classify(resp);
    let p = f.params;
    match f.phase {
        SetClientPhase::AwaitClientCheck => if !(cls is Success) {
            spec_failed(f, spec_fail_of(cls, "Client not found"@, "Client not found"@))
        } else {
            spec_advance(f, 0)
        },
        SetClientPhase::AwaitSetName => if !(cls is Success) {
            spec_failed(
                f,
                spec_fail_of(
                    cls,
                    "Failed to set client name"@,
                    "Failed to set client name: Client not found"@,
                ),
            )
        } else {
            spec_advance(f, 1)
        },
        SetClientPhase::AwaitSetVolume => if !(cls is Success) {
            spec_failed(
                f,
                spec_fail_of(
                    cls,
                    "Failed to set client volume"@,
                    "Failed to set client volume: Client not found"@,
                ),
            )
        } else {
            spec_advance(f, 2)
        },
        SetClientPhase::AwaitSetLatency => if !(cls is Success) {
            spec_failed(
                f,
                spec_fail_of(
                    cls,
                    "Failed to set client latency"@,
                    "Failed to set client latency: Client not found"@,
                ),
            )
        } else {
            spec_advance(f, 3)
        },
        SetClientPhase::AwaitRemoveServerStatus => match spec_get2(resp, "result"@, "server"@) {
            None => spec_failed(f, spec_no_server_error()),
            Some(doc) => match spec_find_client_group(doc, p.client_id) {
                None => spec_advance(f, 4),
                Some(gid) => (
                    SetClientFlowV {
                        phase: SetClientPhase::AwaitRemoveGroupStatus,
                        group_id: gid,
                        pending_group: gid,
                        ..f
                    },
                    ActionV::Send(RpcRequestV::GroupGetStatus { id: gid }),
                ),
            },
        },
        SetClientPhase::AwaitRemoveGroupStatus => if !(cls is Success) {
            spec_failed(
                f,
                spec_fail_of(
                    cls,
                    "Failed to get group status"@,
                    "Failed to get group status: Group not found"@,
                ),
            )
        } else {
            let ginfo = spec_get2(resp, "result"@, "group"@);
            let f1 = match ginfo {
                Some(g) => spec_absorb_group_info(f, g),
                None => f,
            };
            let members = match ginfo {
                Some(g) => spec_ids_without(spec_client_ids_of(spec_group_clients(g)), p.client_id),
                None => Seq::<Seq<char>>::empty(),
            };
            (
                SetClientFlowV { phase: SetClientPhase::AwaitRemoveSetClients, ..f1 },
                ActionV::Send(
                    RpcRequestV::GroupSetClients { id: f.pending_group, clients: members },
                ),
            )
        },
        SetClientPhase::AwaitRemoveSetClients => if !(cls is Success) {
            spec_failed(
                f,
                spec_fail_of(
                    cls,
                    "Failed to update group clients"@,
                    "Failed to update group clients: Group not found"@,
                ),
            )
        } else {
            spec_advance(f, 4)
        },
        SetClientPhase::AwaitAddGroupStatus => if !(cls is Success) {
            spec_failed(
                f,
                spec_fail_of(
                    cls,
                    "Failed to get group status"@,
                    "Failed to get group status: Group not found"@,
                ),
            )
        } else {
            let target = match p.group {
                Some(g) => g,
                None => ""@,
            };
            let ginfo = spec_get2(resp, "result"@, "group"@);
            let f1 = match ginfo {
                Some(g) => {
                    let fa = SetClientFlowV { group_id: target, ..f };
                    let fb = match spec_get_str(g, "name"@) {
                        Some(n) => SetClientFlowV { group_name: n, ..fa },
                        None => fa,
                    };
                    match spec_get_str(g, "stream_id"@) {
                        Some(s) => SetClientFlowV { stream_id: s, ..fb },
                        None => fb,
                    }
                },
                None => f,
            };
            let members = match ginfo {
                Some(g) => spec_client_ids_of(spec_group_clients(g)),
                None => Seq::<Seq<char>>::empty(),
            };
            (
                SetClientFlowV { phase: SetClientPhase::AwaitAddSetClients, ..f1 },
                ActionV::Send(
                    RpcRequestV::GroupSetClients {
                        id: target,
                        clients: spec_ids_with(members, p.client_id),
                    },
                ),
            )
        },
        SetClientPhase::AwaitAddSetClients => if !(cls is Success) {
            spec_failed(
                f,
                spec_fail_of(
                    cls,
                    "Failed to update group clients"@,
                    "Failed to update group clients: Group not found"@,
                ),
            )
        } else {
            spec_advance(f, 4)
        },
        SetClientPhase::AwaitFinalServerStatus => match spec_get2(resp, "result"@, "server"@) {
            None => spec_failed(f, spec_no_server_error()),
            Some(doc) => match spec_find_client_group(doc, p.client_id) {
                Some(gid) => (
                    SetClientFlowV {
                        phase: SetClientPhase::AwaitFinalGroupStatus,
                        pending_group: gid,
                        ..f
                    },
                    ActionV::Send(RpcRequestV::GroupGetStatus { id: gid }),
                ),
                None => (
                    SetClientFlowV { phase: SetClientPhase::AwaitFinalClientStatus, ..f },
                    ActionV::Send(RpcRequestV::ClientGetStatus { id: p.client_id }),
                ),
            },
        },
        SetClientPhase::AwaitFinalGroupStatus => {
            let f1 = match spec_get2(resp, "result"@, "group"@) {
                Some(g) => SetClientFlowV {
                    group_id: match spec_get_str(g, "id"@) {
                        Some(id) => id,
                        None => f.pending_group,
                    },
                    group_name: match spec_get_str(g, "name"@) {
                        Some(n) => n,
                        None => "N/A"@,
                    },
                    stream_id: match spec_get_str(g, "stream_id"@) {
                        Some(s) => s,
                        None => "N/A"@,
                    },
                    ..f
                },
                None => f,
            };
            (
                SetClientFlowV { phase: SetClientPhase::AwaitFinalClientStatus, ..f1 },
                ActionV::Send(RpcRequestV::ClientGetStatus { id: p.client_id }),
            )
        },
        SetClientPhase::AwaitFinalClientStatus => if !(cls is Success) {
            spec_failed(
                f,
                spec_fail_of(
                    cls,
                    "Failed to get final client status"@,
                    "Failed to get final client status: Client not found"@,
                ),
            )
        } else {
            match spec_get2(resp, "result"@, "client"@) {
                None => spec_failed(
                    f,
                    CtlErrorV::Protocol { message: "Failed to get client data"@ },
                ),
                Some(c) => (
                    SetClientFlowV { phase: SetClientPhase::Done, ..f },
                    ActionV::Done(
                        spec_client_full_table(c, f.group_id, f.group_name, f.stream_id),
                    ),
                ),
            }
        },
        _ => (f, ActionV::Fail(CtlErrorV::Protocol { message: ""@ })),
    }
}

impl SetClientFlow {
    /// A fresh orchestration of the given intent.
    pub fn new(params: SetClientParams) -> (f: Self)
        ensures
            f@ == spec_initial(params@),
    {
        SetClientFlow {
            params,
            phase: SetClientPhase::Start,
            group_id: "N/A".to_owned(),
            group_name: "N/A".to_owned(),
            stream_id: "N/A".to_owned(),
            pending_group: "".to_owned(),
        }
    }

    /// Opens the orchestration: the client is looked up before anything is
    /// changed.
    pub fn start(&mut self) -> (a: Action)
        requires
            old(self).phase == SetClientPhase::Start,
        ensures
            final(self)@ == (SetClientFlowV {
                phase: SetClientPhase::AwaitClientCheck,
                ..old(self)@
            }),
            a@ == ActionV::Send(RpcRequestV::ClientGetStatus { id: old(self)@.params.client_id }),
    {
        self.phase = SetClientPhase::AwaitClientCheck;
        Action::Send(RpcRequest::ClientGetStatus { id: self.params.client_id.clone() })
    }

    /// Consumes the reply to the outstanding request and decides what
    /// happens next.
    pub fn step(&mut self, resp: &Json) -> (a: Action)
        requires
            spec_in_flight(old(self).phase),
        ensures
            (final(self)@, a@) == spec_step(old(self)@, *resp),
    {
        let cls = classify_response(resp);
        match self.phase {
            SetClientPhase::AwaitClientCheck => {
                if !matches!(cls, Classification::Success) {
                    self.phase = SetClientPhase::Failed;
                    Action::Fail(fail_of(cls, "Client not found", "Client not found"))
                } else {
                    self.advance(0)
                }
            },
            SetClientPhase::AwaitSetName => {
                if !matches!(cls, Classification::Success) {
                    self.phase = SetClientPhase::Failed;
                    Action::Fail(
                        fail_of(
                            cls,
                            "Failed to set client name",
                            "Failed to set client name: Client not found",
                        ),
                    )
                } else {
                    self.advance(1)
                }
            },
            SetClientPhase::AwaitSetVolume => {
                if !matches!(cls, Classification::Success) {
                    self.phase = SetClientPhase::Failed;
                    Action::Fail(
                        fail_of(
                            cls,
                            "Failed to set client volume",
                            "Failed to set client volume: Client not found",
                        ),
                    )
                } else {
                    self.advance(2)
                }
            },
            SetClientPhase::AwaitSetLatency => {
                if !matches!(cls, Classification::Success) {
                    self.phase = SetClientPhase::Failed;
                    Action::Fail(
                        fail_of(
                            cls,
                            "Failed to set client latency",
                            "Failed to set client latency: Client not found",
                        ),
                    )
                } else {
                    self.advance(3)
                }
            },
            SetClientPhase::AwaitRemoveServerStatus => {
                let doc = match resp.get2("result", "server") {
                    Some(doc) => doc,
                    None => {
                        self.phase = SetClientPhase::Failed;
                        return Action::Fail(
                            CtlError::Protocol {
                                message: "Failed to get server information from response".to_owned(),
                            },
                        );
                    },
                };
                match find_client_group(doc, self.params.client_id.as_str()) {
                    None => self.advance(4),
                    Some(gid) => {
                        self.phase = SetClientPhase::AwaitRemoveGroupStatus;
                        self.group_id = gid.clone();
                        self.pending_group = gid.clone();
                        Action::Send(RpcRequest::GroupGetStatus { id: gid })
                    },
                }
            },
            SetClientPhase::AwaitRemoveGroupStatus => {
                if !matches!(cls, Classification::Success) {
                    self.phase = SetClientPhase::Failed;
                    Action::Fail(
                        fail_of(
                            cls,
                            "Failed to get group status",
                            "Failed to get group status: Group not found",
                        ),
                    )
                } else {
                    let mut members: Vec<String> = Vec::new();
                    match resp.get2("result", "group") {
                        Some(g) => {
                            self.absorb_group_info(g);
                            let ids = group_client_ids(g);
                            members = ids_without(&ids, self.params.client_id.as_str());
                        },
                        None => {
                            proof {
                                assert(members.deep_view() =~= Seq::<Seq<char>>::empty());
                            }
                        },
                    }
                    self.phase = SetClientPhase::AwaitRemoveSetClients;
                    Action::Send(
                        RpcRequest::GroupSetClients {
                            id: self.pending_group.clone(),
                            clients: members,
                        },
                    )
                }
            },
            SetClientPhase::AwaitRemoveSetClients => {
                if !matches!(cls, Classification::Success) {
                    self.phase = SetClientPhase::Failed;
                    Action::Fail(
                        fail_of(
                            cls,
                            "Failed to update group clients",
                            "Failed to update group clients: Group not found",
                        ),
                    )
                } else {
                    self.advance(4)
                }
            },
            SetClientPhase::AwaitAddGroupStatus => {
                if !matches!(cls, Classification::Success) {
                    self.phase = SetClientPhase::Failed;
                    Action::Fail(
                        fail_of(
                            cls,
                            "Failed to get group status",
                            "Failed to get group status: Group not found",
                        ),
                    )
                } else {
                    let target = match &self.params.group {
                        Some(g) => g.clone(),
                        None => "".to_owned(),
                    };
                    let mut members: Vec<String> = Vec::new();
                    match resp.get2("result", "group") {
                        Some(g) => {
                            self.group_id = target.clone();
                            if let Some(n) = g.get_str("name") {
                                self.group_name = n.to_owned();
                            }
                            if let Some(s) = g.get_str("stream_id") {
                                self.stream_id = s.to_owned();
                            }
                            members = group_client_ids(g);
                        },
                        None => {
                            proof {
                                assert(members.deep_view() =~= Seq::<Seq<char>>::empty());
                            }
                        },
                    }
                    let updated = ids_with(members, self.params.client_id.as_str());
                    self.phase = SetClientPhase::AwaitAddSetClients;
                    Action::Send(RpcRequest::GroupSetClients { id: target, clients: updated })
                }
            },
            SetClientPhase::AwaitAddSetClients => {
                if !matches!(cls, Classification::Success) {
                    self.phase = SetClientPhase::Failed;
                    Action::Fail(
                        fail_of(
                            cls,
                            "Failed to update group clients",
                            "Failed to update group clients: Group not found",
                        ),
                    )
                } else {
                    self.advance(4)
                }
            },
            SetClientPhase::AwaitFinalServerStatus => {
                let doc = match resp.get2("result", "server") {
                    Some(doc) => doc,
                    None => {
                        self.phase = SetClientPhase::Failed;
                        return Action::Fail(
                            CtlError::Protocol {
                                message: "Failed to get server information from response".to_owned(),
                            },
                        );
                    },
                };
                match find_client_group(doc, self.params.client_id.as_str()) {
                    Some(gid) => {
                        self.phase = SetClientPhase::AwaitFinalGroupStatus;
                        self.pending_group = gid.clone();
                        Action::Send(RpcRequest::GroupGetStatus { id: gid })
                    },
                    None => {
                        self.phase = SetClientPhase::AwaitFinalClientStatus;
                        Action::Send(
                            RpcRequest::ClientGetStatus { id: self.params.client_id.clone() },
                        )
                    },
                }
            },
            SetClientPhase::AwaitFinalGroupStatus => {
                match resp.get2("result", "group") {
                    Some(g) => {
                        self.group_id = g.get_str_or("id", self.pending_group.as_str()).to_owned();
                        self.group_name = g.get_str_or("name", "N/A").to_owned();
                        self.stream_id = g.get_str_or("stream_id", "N/A").to_owned();
                    },
                    None => {},
                }
                self.phase = SetClientPhase::AwaitFinalClientStatus;
                Action::Send(RpcRequest::ClientGetStatus { id: self.params.client_id.clone() })
            },
            SetClientPhase::AwaitFinalClientStatus => {
                if !matches!(cls, Classification::Success) {
                    self.phase = SetClientPhase::Failed;
                    Action::Fail(
                        fail_of(
                            cls,
                            "Failed to get final client status",
                            "Failed to get final client status: Client not found",
                        ),
                    )
                } else {
                    match resp.get2("result", "client") {
                        None => {
                            self.phase = SetClientPhase::Failed;
                            Action::Fail(
                                CtlError::Protocol {
                                    message: "Failed to get client data".to_owned(),
                                },
                            )
                        },
                        Some(c) => {
                            let table = crate::rows::client_full_table(
                                c,
                                self.group_id.as_str(),
                                self.group_name.as_str(),
                                self.stream_id.as_str(),
                            );
                            self.phase = SetClientPhase::Done;
                            Action::Done(table)
                        },
                    }
                }
            },
            _ => Action::Fail(CtlError::Protocol { message: "".to_owned() }),
        }
    }

    /// Moves to the next request of the fixed pipeline, starting the search
    /// at `stage`.
    fn advance(&mut self, stage: u8) -> (a: Action)
        ensures
            (final(self)@, a@) == spec_advance(old(self)@, stage as int),
    {
        if stage <= 0 && self.params.name.is_some() {
            let name = match &self.params.name {
                Some(n) => n.clone(),
                None => "".to_owned(),
            };
            self.phase = SetClientPhase::AwaitSetName;
            Action::Send(
                RpcRequest::ClientSetName { id: self.params.client_id.clone(), name },
            )
        } else if stage <= 1 && (self.params.mute.is_some() || self.params.volume.is_some()) {
            self.phase = SetClientPhase::AwaitSetVolume;
            Action::Send(
                RpcRequest::ClientSetVolume {
                    id: self.params.client_id.clone(),
                    muted: self.params.mute,
                    percent: self.params.volume,
                },
            )
        } else if stage <= 2 && self.params.latency.is_some() {
            let latency = match self.params.latency {
                Some(l) => l,
                None => 0,
            };
            self.phase = SetClientPhase::AwaitSetLatency;
            Action::Send(
                RpcRequest::ClientSetLatency { id: self.params.client_id.clone(), latency },
            )
        } else if stage <= 3 && self.params.group.is_some() {
            let group = match &self.params.group {
                Some(g) => g.clone(),
                None => "".to_owned(),
            };
            let remove = group.as_str().is_empty() || crate::strutil::is_clear_token(group.as_str());
            if remove {
                self.phase = SetClientPhase::AwaitRemoveServerStatus;
                Action::Send(RpcRequest::ServerGetStatus)
            } else {
                self.phase = SetClientPhase::AwaitAddGroupStatus;
                Action::Send(RpcRequest::GroupGetStatus { id: group })
            }
        } else {
            self.phase = SetClientPhase::AwaitFinalServerStatus;
            Action::Send(RpcRequest::ServerGetStatus)
        }
    }

    /// Overwrites each display field that the group-status reply carries.
    fn absorb_group_info(&mut self, g: &Json)
        ensures
            final(self)@ == spec_absorb_group_info(old(self)@, *g),
    {
        if let Some(id) = g.get_str("id") {
            self.group_id = id.to_owned();
        }
        if let Some(n) = g.get_str("name") {
            self.group_name = n.to_owned();
        }
        if let Some(s) = g.get_str("stream_id") {
            self.stream_id = s.to_owned();
        }
    }
}

} // verus!
