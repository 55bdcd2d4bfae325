//! The client-deletion orchestrations: a single client, or a comma-
//! separated batch handled one client at a time.  Each deletion verifies
//! the client exists first; a batch that fails midway reports which
//! deletions had already taken effect, since nothing is rolled back.

use vstd::prelude::*;
use vstd::string::StringExecFns;
use crate::json::{Json, spec_get2};
use crate::classify::{spec_classify, classify_response, spec_fail_of, fail_of, Classification};
use crate::error::{CtlError, CtlErrorV};
use crate::rpc::{RpcRequest, RpcRequestV, Action, ActionV};
use crate::rows::{spec_clients_table, get_clients};
use crate::strutil::{spec_parse_list, parse_id_list, spec_join, join_strings};

verus! {

/// Where a single-client deletion stands.
#[derive(Debug, PartialEq, Eq, Structural, Clone, Copy)]
pub enum DeletePhase {
    Start,
    AwaitClientCheck,
    AwaitDelete,
    AwaitFinalStatus,
    Done,
    Failed,
}

/// A phase in which a request is outstanding and a reply is owed.
pub open spec fn spec_delete_in_flight(p: DeletePhase) -> bool {
    !(p == DeletePhase::Start || p == DeletePhase::Done || p == DeletePhase::Failed)
}

/// The failure raised when a status reply lacks the server subtree.
pub open spec fn spec_no_server_error() -> CtlErrorV {
    CtlErrorV::Protocol { message: "Failed to get server information from response"@ }
}

/// The single-client deletion: check, delete, confirm.
#[derive(Debug)]
pub struct DeleteClientFlow {
    pub client_id: String,
    pub phase: DeletePhase,
}

/// The mathematical image of the single-client deletion.
pub struct DeleteClientFlowV {
    pub client_id: Seq<char>,
    pub phase: DeletePhase,
}

impl View for DeleteClientFlow {
    type V = DeleteClientFlowV;

    open spec fn view(&self) -> DeleteClientFlowV {
        DeleteClientFlowV { client_id: self.client_id@, phase: self.phase }
    }
}

/// One step of the single-client deletion.
pub open spec fn spec_delete_step(f: DeleteClientFlowV, resp: Json) -> (DeleteClientFlowV, ActionV) {
    let cls = spec_classify(resp);
    match f.phase {
        DeletePhase::AwaitClientCheck => if !(cls is Success) {
            (
                DeleteClientFlowV { phase: DeletePhase::Failed, ..f },
                ActionV::Fail(spec_fail_of(cls, "Client not found"@, "Client not found"@)),
            )
        } else {
            (
                DeleteClientFlowV { phase: DeletePhase::AwaitDelete, ..f },
                ActionV::Send(RpcRequestV::ServerDeleteClient { id: f.client_id }),
            )
        },
        DeletePhase::AwaitDelete => if !(cls is Success) {
            (
                DeleteClientFlowV { phase: DeletePhase::Failed, ..f },
                ActionV::Fail(
                    spec_fail_of(
                        cls,
                        "Failed to delete client"@,
                        "Failed to delete client: Client not found"@,
                    ),
                ),
            )
        } else {
            (
                DeleteClientFlowV { phase: DeletePhase::AwaitFinalStatus, ..f },
                ActionV::Send(RpcRequestV::ServerGetStatus),
            )
        },
        DeletePhase::AwaitFinalStatus => match spec_get2(resp, "result"@, "server"@) {
            None => (
                DeleteClientFlowV { phase: DeletePhase::Failed, ..f },
                ActionV::Fail(spec_no_server_error()),
            ),
            Some(doc) => (
                DeleteClientFlowV { phase: DeletePhase::Done, ..f },
                ActionV::Done(spec_clients_table(doc)),
            ),
        },
        _ => (f, ActionV::Fail(CtlErrorV::Protocol { message: ""@ })),
    }
}

impl DeleteClientFlow {
    /// A fresh deletion of the named client.
    pub fn new(client_id: String) -> (f: Self)
        ensures
            f@ == (DeleteClientFlowV { client_id: client_id@, phase: DeletePhase::Start }),
    {
        DeleteClientFlow { client_id, phase: DeletePhase::Start }
    }

    /// Opens the orchestration: the client is looked up before it is
    /// deleted.
    pub fn start(&mut self) -> (a: Action)
        requires
            old(self).phase == DeletePhase::Start,
        ensures
            final(self)@ == (DeleteClientFlowV {
                phase: DeletePhase::AwaitClientCheck,
                ..old(self)@
            }),
            a@ == ActionV::Send(RpcRequestV::ClientGetStatus { id: old(self)@.client_id }),
    {
        self.phase = DeletePhase::AwaitClientCheck;
        Action::Send(RpcRequest::ClientGetStatus { id: self.client_id.clone() })
    }

    /// Consumes the reply to the outstanding request and decides what
    /// happens next.
    pub fn step(&mut self, resp: &Json) -> (a: Action)
        requires
            spec_delete_in_flight(old(self).phase),
        ensures
            (final(self)@, a@) == spec_delete_step(old(self)@, *resp),
    {
        let cls = classify_response(resp);
        match self.phase {
            DeletePhase::AwaitClientCheck => {
                if !matches!(cls, Classification::Success) {
                    self.phase = DeletePhase::Failed;
                    Action::Fail(fail_of(cls, "Client not found", "Client not found"))
                } else {
                    self.phase = DeletePhase::AwaitDelete;
                    Action::Send(RpcRequest::ServerDeleteClient { id: self.client_id.clone() })
                }
            },
            DeletePhase::AwaitDelete => {
                if !matches!(cls, Classification::Success) {
                    self.phase = DeletePhase::Failed;
                    Action::Fail(
                        fail_of(
                            cls,
                            "Failed to delete client",
                            "Failed to delete client: Client not found",
                        ),
                    )
                } else {
                    self.phase = DeletePhase::AwaitFinalStatus;
                    Action::Send(RpcRequest::ServerGetStatus)
                }
            },
            DeletePhase::AwaitFinalStatus => {
                match resp.get2("result", "server") {
                    None => {
                        self.phase = DeletePhase::Failed;
                        Action::Fail(
                            CtlError::Protocol {
                                message: "Failed to get server information from response".to_owned(),
                            },
                        )
                    },
                    Some(doc) => {
                        self.phase = DeletePhase::Done;
                        Action::Done(get_clients(doc))
                    },
                }
            },
            _ => Action::Fail(CtlError::Protocol { message: "".to_owned() }),
        }
    }
}

/// The batch deletion: the clients named by a comma-separated list, checked
/// and deleted one after the other, then one confirmation fetch.
#[derive(Debug)]
pub struct DeleteClientsFlow {
    pub ids: Vec<String>,
    pub idx: usize,
    pub phase: DeletePhase,
}

/// The mathematical image of the batch deletion.
pub struct DeleteClientsFlowV {
    pub ids: Seq<Seq<char>>,
    pub idx: int,
    pub phase: DeletePhase,
}

impl View for DeleteClientsFlow {
    type V = DeleteClientsFlowV;

    open spec fn view(&self) -> DeleteClientsFlowV {
        DeleteClientsFlowV { ids: self.ids.deep_view(), idx: self.idx as int, phase: self.phase }
    }
}

/// The clients already deleted when the batch stops at position `idx`,
/// named for the failure report; `none` when the first deletion already
/// failed.
pub open spec fn spec_deleted_so_far(f: DeleteClientsFlowV) -> Seq<char> {
    if f.idx == 0 {
        "none"@
    } else {
        spec_join(f.ids.take(f.idx), ", "@)
    }
}

/// The report of a batch stopped by a client the server does not know: the
/// offending identifier, and which deletions had already taken effect.
pub open spec fn spec_batch_not_found_msg(f: DeleteClientsFlowV) -> Seq<char> {
    "Client not found: '"@ + f.ids[f.idx] + "'. Deleted before the failure: "@
        + spec_deleted_so_far(f)
}

/// One step of the batch deletion.
pub open spec fn spec_batch_step(f: DeleteClientsFlowV, resp: Json) -> (DeleteClientsFlowV, ActionV) {
    let cls = spec_classify(resp);
    match f.phase {
        DeletePhase::AwaitClientCheck => match cls {
            crate::classify::ClassificationV::EntityNotFound { .. } => (
                DeleteClientsFlowV { phase: DeletePhase::Failed, ..f },
                ActionV::Fail(CtlErrorV::EntityNotFound { message: spec_batch_not_found_msg(f) }),
            ),
            crate::classify::ClassificationV::UnknownRpc { .. } => (
                DeleteClientsFlowV { phase: DeletePhase::Failed, ..f },
                ActionV::Fail(spec_fail_of(cls, "Client not found"@, "Client not found"@)),
            ),
            crate::classify::ClassificationV::Success => (
                DeleteClientsFlowV { phase: DeletePhase::AwaitDelete, ..f },
                ActionV::Send(RpcRequestV::ServerDeleteClient { id: f.ids[f.idx] }),
            ),
        },
        DeletePhase::AwaitDelete => if !(cls is Success) {
            (
                DeleteClientsFlowV { phase: DeletePhase::Failed, ..f },
                ActionV::Fail(
                    spec_fail_of(
                        cls,
                        "Failed to delete client"@,
                        "Failed to delete client: Client not found"@,
                    ),
                ),
            )
        } else {
            if f.idx + 1 < f.ids.len() {
                (
                    DeleteClientsFlowV { idx: f.idx + 1, phase: DeletePhase::AwaitClientCheck, ..f },
                    ActionV::Send(RpcRequestV::ClientGetStatus { id: f.ids[f.idx + 1] }),
                )
            } else {
                (
                    DeleteClientsFlowV { idx: f.idx + 1, phase: DeletePhase::AwaitFinalStatus, ..f },
                    ActionV::Send(RpcRequestV::ServerGetStatus),
                )
            }
        },
        DeletePhase::AwaitFinalStatus => match spec_get2(resp, "result"@, "server"@) {
            None => (
                DeleteClientsFlowV { phase: DeletePhase::Failed, ..f },
                ActionV::Fail(spec_no_server_error()),
            ),
            Some(doc) => (
                DeleteClientsFlowV { phase: DeletePhase::Done, ..f },
                ActionV::Done(spec_clients_table(doc)),
            ),
        },
        _ => (f, ActionV::Fail(CtlErrorV::Protocol { message: ""@ })),
    }
}

impl DeleteClientsFlow {
    /// A fresh batch deletion of the clients the comma-separated list
    /// names.
    pub fn new(list: &str) -> (f: Self)
        ensures
            f@ == (DeleteClientsFlowV {
                ids: spec_parse_list(list@),
                idx: 0,
                phase: DeletePhase::Start,
            }),
    {
        DeleteClientsFlow { ids: parse_id_list(list), idx: 0, phase: DeletePhase::Start }
    }

    /// Opens the batch: the first client is looked up, or, when the list
    /// names none, the confirmation is fetched at once.
    pub fn start(&mut self) -> (a: Action)
        requires
            old(self).phase == DeletePhase::Start,
        ensures
            old(self)@.ids.len() == 0 ==> final(self)@ == (DeleteClientsFlowV {
                phase: DeletePhase::AwaitFinalStatus,
                ..old(self)@
            }) && a@ == ActionV::Send(RpcRequestV::ServerGetStatus),
            old(self)@.ids.len() > 0 ==> final(self)@ == (DeleteClientsFlowV {
                phase: DeletePhase::AwaitClientCheck,
                ..old(self)@
            }) && a@ == ActionV::Send(RpcRequestV::ClientGetStatus { id: old(self)@.ids[0] }),
    {
        if self.ids.len() == 0 {
            self.phase = DeletePhase::AwaitFinalStatus;
            Action::Send(RpcRequest::ServerGetStatus)
        } else {
            self.phase = DeletePhase::AwaitClientCheck;
            let first = self.ids[0].clone();
            Action::Send(RpcRequest::ClientGetStatus { id: first })
        }
    }

    /// Consumes the reply to the outstanding request and decides what
    /// happens next.
    pub fn step(&mut self, resp: &Json) -> (a: Action)
        requires
            spec_delete_in_flight(old(self).phase),
            old(self).phase == DeletePhase::AwaitClientCheck || old(self).phase
                == DeletePhase::AwaitDelete ==> old(self)@.idx < old(self)@.ids.len(),
        ensures
            (final(self)@, a@) == spec_batch_step(old(self)@, *resp),
    {
        let cls = classify_response(resp);
        match self.phase {
            DeletePhase::AwaitClientCheck => {
                match cls {
                    Classification::EntityNotFound { .. } => {
                        let mut message = "Client not found: '".to_owned();
                        message.append(self.ids[self.idx].as_str());
                        message.append("'. Deleted before the failure: ");
                        if self.idx == 0 {
                            message.append("none");
                        } else {
                            let mut done: Vec<String> = Vec::new();
                            let mut j: usize = 0;
                            while j < self.idx
                                invariant
                                    j <= self.idx,
                                    self.idx <= self.ids@.len(),
                                    done@.len() == j,
                                    forall|k: int|
                                        0 <= k < j ==> #[trigger] done.deep_view()[k]
                                            == self.ids.deep_view()[k],
                                decreases self.idx - j,
                            {
                                let ghost prevv = done@;
                                let ghost prevdv = done.deep_view();
                                done.push(self.ids[j].clone());
                                proof {
                                    assert forall|k: int| 0 <= k < j + 1 implies #[trigger] done.deep_view()[k]
                                        == self.ids.deep_view()[k] by {
                                        assert(done.deep_view()[k] == done@[k]@);
                                        if k < j {
                                            assert(done@[k] == prevv[k]);
                                            assert(prevdv[k] == prevv[k]@);
                                        }
                                    }
                                }
                                j += 1;
                            }
                            proof {
                                assert(done.deep_view() =~= self.ids.deep_view().take(
                                    self.idx as int,
                                ));
                            }
                            message.append(join_strings(&done, ", ").as_str());
                        }
                        self.phase = DeletePhase::Failed;
                        Action::Fail(CtlError::EntityNotFound { message })
                    },
                    Classification::UnknownRpc { .. } => {
                        self.phase = DeletePhase::Failed;
                        Action::Fail(fail_of(cls, "Client not found", "Client not found"))
                    },
                    Classification::Success => {
                        self.phase = DeletePhase::AwaitDelete;
                        let id = self.ids[self.idx].clone();
                        Action::Send(RpcRequest::ServerDeleteClient { id })
                    },
                }
            },
            DeletePhase::AwaitDelete => {
                if !matches!(cls, Classification::Success) {
                    self.phase = DeletePhase::Failed;
                    Action::Fail(
                        fail_of(
                            cls,
                            "Failed to delete client",
                            "Failed to delete client: Client not found",
                        ),
                    )
                } else {
                    let n = self.ids.len();
                    proof {
                        assert(self.idx < n);
                    }
                    self.idx = self.idx + 1;
                    if self.idx < n {
                        self.phase = DeletePhase::AwaitClientCheck;
                        let id = self.ids[self.idx].clone();
                        Action::Send(RpcRequest::ClientGetStatus { id })
                    } else {
                        self.phase = DeletePhase::AwaitFinalStatus;
                        Action::Send(RpcRequest::ServerGetStatus)
                    }
                }
            },
            DeletePhase::AwaitFinalStatus => {
                match resp.get2("result", "server") {
                    None => {
                        self.phase = DeletePhase::Failed;
                        Action::Fail(
                            CtlError::Protocol {
                                message: "Failed to get server information from response".to_owned(),
                            },
                        )
                    },
                    Some(doc) => {
                        self.phase = DeletePhase::Done;
                        Action::Done(get_clients(doc))
                    },
                }
            },
            _ => Action::Fail(CtlError::Protocol { message: "".to_owned() }),
        }
    }
}

} // verus!
