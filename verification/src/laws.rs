//! The properties the library stands on, stated and proved once: lookup
//! soundness and uniqueness, verbatim transmission of a new name, idempotent
//! group membership, the clear-field sentinel, and the fail-fast rule that
//! no mutation is issued after an error reply.

use vstd::prelude::*;
use crate::json::{Json, spec_get2, spec_get_str};
use crate::lookup::{
    spec_doc_groups,
    spec_group_clients,
    spec_id_matches,
    spec_find_in_clients,
    spec_find_client_in_groups,
    spec_find_client,
    spec_client_ids_of,
    spec_ids_with,
    spec_ids_without,
};
use crate::classify::spec_classify;
use crate::rpc::{RpcRequestV, ActionV};
use crate::strutil::{is_clear_sentinel, lower_seq};
use crate::flow_set_client::{SetClientFlowV, SetClientPhase, spec_in_flight, spec_step};
use crate::flow_set_group::{
    SetGroupFlowV,
    SetGroupParamsV,
    SetGroupPhase,
    spec_name_to_set,
    spec_stream_to_set,
    spec_clients_to_set,
    spec_group_advance,
    spec_group_in_flight,
    spec_group_step,
};
use crate::flow_delete::{
    DeleteClientFlowV,
    DeleteClientsFlowV,
    DeletePhase,
    spec_delete_in_flight,
    spec_delete_step,
    spec_batch_step,
};

verus! {

/// A request that changes server state, as opposed to a status read.
pub open spec fn spec_is_mutating(r: RpcRequestV) -> bool {
    !(r is ServerGetStatus || r is ClientGetStatus || r is GroupGetStatus)
}

proof fn lemma_find_in_clients_props(cs: Seq<Json>, id: Seq<char>)
    ensures
        match spec_find_in_clients(cs, id) {
            Some(c) => spec_id_matches(c, id) && exists|i: int|
                0 <= i < cs.len() && cs[i] == c,
            None => forall|i: int| 0 <= i < cs.len() ==> !spec_id_matches(#[trigger] cs[i], id),
        },
    decreases cs.len(),
{
    if cs.len() > 0 {
        if spec_id_matches(cs[0], id) {
            assert(cs[0] == cs[0]);
        } else {
            lemma_find_in_clients_props(cs.drop_first(), id);
            match spec_find_in_clients(cs.drop_first(), id) {
                Some(c) => {
                    let i = choose|i: int| 0 <= i < cs.drop_first().len() && cs.drop_first()[i]
                        == c;
                    assert(cs[i + 1] == c);
                },
                None => {
                    assert forall|i: int| 0 <= i < cs.len() implies !spec_id_matches(
                        #[trigger] cs[i],
                        id,
                    ) by {
                        if i > 0 {
                            assert(cs.drop_first()[i - 1] == cs[i]);
                        }
                    }
                },
            }
        }
    }
}

proof fn lemma_find_in_groups_props(gs: Seq<Json>, id: Seq<char>)
    ensures
        match spec_find_client_in_groups(gs, id) {
            Some(c) => spec_id_matches(c, id) && exists|gi: int, ci: int|
                0 <= gi < gs.len() && 0 <= ci < spec_group_clients(gs[gi]).len()
                    && #[trigger] spec_group_clients(gs[gi])[ci] == c,
            None => forall|gi: int, ci: int|
                0 <= gi < gs.len() && 0 <= ci < spec_group_clients(gs[gi]).len()
                    ==> !spec_id_matches(#[trigger] spec_group_clients(gs[gi])[ci], id),
        },
    decreases gs.len(),
{
    if gs.len() > 0 {
        lemma_find_in_clients_props(spec_group_clients(gs[0]), id);
        match spec_find_in_clients(spec_group_clients(gs[0]), id) {
            Some(c) => {
                let i = choose|i: int|
                    0 <= i < spec_group_clients(gs[0]).len() && spec_group_clients(gs[0])[i] == c;
                assert(spec_group_clients(gs[0])[i] == c);
            },
            None => {
                lemma_find_in_groups_props(gs.drop_first(), id);
                match spec_find_client_in_groups(gs.drop_first(), id) {
                    Some(c) => {
                        let (gj, cj): (int, int) = choose|gj: int, cj: int|
                            0 <= gj < gs.drop_first().len() && 0 <= cj < spec_group_clients(
                                gs.drop_first()[gj],
                            ).len() && #[trigger] spec_group_clients(gs.drop_first()[gj])[cj] == c;
                        assert(gs.drop_first()[gj] == gs[gj + 1]);
                        assert(spec_group_clients(gs[gj + 1])[cj] == c);
                    },
                    None => {
                        assert forall|gi: int, ci: int|
                            0 <= gi < gs.len() && 0 <= ci < spec_group_clients(gs[gi]).len()
                                implies !spec_id_matches(
                                #[trigger] spec_group_clients(gs[gi])[ci],
                                id,
                            ) by {
                            if gi > 0 {
                                assert(gs.drop_first()[gi - 1] == gs[gi]);
                            }
                        }
                    },
                }
            },
        }
    }
}

/// Finding a client by identifier is sound and complete: a found node
/// carries the identifier and sits in some group's member list, and nothing
/// is found exactly when no listed client carries the identifier.  The
/// lookup itself is total — a document with absent or malformed members
/// yields an answer, never a fault.
pub proof fn law_find_client_sound_complete(doc: Json, id: Seq<char>)
    ensures
        match spec_find_client(doc, id) {
            Some(c) => spec_id_matches(c, id) && exists|gi: int, ci: int|
                0 <= gi < spec_doc_groups(doc).len() && 0 <= ci < spec_group_clients(
                    spec_doc_groups(doc)[gi],
                ).len() && #[trigger] spec_group_clients(spec_doc_groups(doc)[gi])[ci] == c,
            None => forall|gi: int, ci: int|
                0 <= gi < spec_doc_groups(doc).len() && 0 <= ci < spec_group_clients(
                    spec_doc_groups(doc)[gi],
                ).len() ==> !spec_id_matches(
                    #[trigger] spec_group_clients(spec_doc_groups(doc)[gi])[ci],
                    id,
                ),
        },
{
    lemma_find_in_groups_props(spec_doc_groups(doc), id);
}

/// Client identifiers name at most one listed client node apiece.
pub open spec fn spec_unique_client_ids(doc: Json) -> bool {
    forall|g1: int, c1: int, g2: int, c2: int|
        0 <= g1 < spec_doc_groups(doc).len() && 0 <= c1 < spec_group_clients(
            spec_doc_groups(doc)[g1],
        ).len() && 0 <= g2 < spec_doc_groups(doc).len() && 0 <= c2 < spec_group_clients(
            spec_doc_groups(doc)[g2],
        ).len() && spec_get_str(#[trigger] spec_group_clients(spec_doc_groups(doc)[g1])[c1], "id"@)
            is Some && spec_get_str(spec_group_clients(spec_doc_groups(doc)[g1])[c1], "id"@)
            == spec_get_str(#[trigger] spec_group_clients(spec_doc_groups(doc)[g2])[c2], "id"@)
            ==> g1 == g2 && c1 == c2
}

/// When client identifiers are unique — the document invariant the server
/// maintains — the lookup returns exactly the matching node.
pub proof fn law_find_client_unique(doc: Json, id: Seq<char>, gi: int, ci: int)
    requires
        spec_unique_client_ids(doc),
        0 <= gi < spec_doc_groups(doc).len(),
        0 <= ci < spec_group_clients(spec_doc_groups(doc)[gi]).len(),
        spec_id_matches(spec_group_clients(spec_doc_groups(doc)[gi])[ci], id),
    ensures
        spec_find_client(doc, id) == Some(spec_group_clients(spec_doc_groups(doc)[gi])[ci]),
{
    law_find_client_sound_complete(doc, id);
    match spec_find_client(doc, id) {
        Some(c) => {
            let (gj, cj): (int, int) = choose|gj: int, cj: int|
                0 <= gj < spec_doc_groups(doc).len() && 0 <= cj < spec_group_clients(
                    spec_doc_groups(doc)[gj],
                ).len() && #[trigger] spec_group_clients(spec_doc_groups(doc)[gj])[cj] == c;
            assert(gj == gi && cj == ci);
        },
        None => {
            assert(!spec_id_matches(spec_group_clients(spec_doc_groups(doc)[gi])[ci], id));
        },
    }
}

/// A supplied name is sent to the server verbatim: once the client check
/// succeeds, the first request of the pipeline carries exactly the given
/// name for exactly the given client.  Together with the confirmation
/// table, which shows the name the final fetch reports, this is the
/// library's half of the name round trip; the rest is the server's.
pub proof fn law_name_sent_verbatim(f: SetClientFlowV, resp: Json)
    requires
        f.phase == SetClientPhase::AwaitClientCheck,
        spec_classify(resp) is Success,
        f.params.name is Some,
    ensures
        spec_step(f, resp).1 == ActionV::Send(
            RpcRequestV::ClientSetName { id: f.params.client_id, name: f.params.name->Some_0 },
        ),
{
}

/// Membership updates are idempotent: adding an identifier already present
/// changes nothing, adding a fresh one appends it once, and the identifier
/// is a member afterwards either way.
pub proof fn law_membership_idempotent(ids: Seq<Seq<char>>, id: Seq<char>)
    ensures
        ids.contains(id) ==> spec_ids_with(ids, id) == ids,
        !ids.contains(id) ==> spec_ids_with(ids, id) == ids.push(id),
        spec_ids_with(ids, id).contains(id),
{
    if !ids.contains(id) {
        assert(spec_ids_with(ids, id)[ids.len() as int] == id);
    }
}

/// Moving a client to the group it already belongs to leaves the membership
/// the orchestration sends unchanged: the identifier is not duplicated.
pub proof fn law_rejoin_leaves_membership(f: SetClientFlowV, resp: Json, g: Json)
    requires
        f.phase == SetClientPhase::AwaitAddGroupStatus,
        spec_classify(resp) is Success,
        spec_get2(resp, "result"@, "group"@) == Some(g),
        spec_client_ids_of(spec_group_clients(g)).contains(f.params.client_id),
        f.params.group is Some,
    ensures
        spec_step(f, resp).1 == ActionV::Send(
            RpcRequestV::GroupSetClients {
                id: f.params.group->Some_0,
                clients: spec_client_ids_of(spec_group_clients(g)),
            },
        ),
{
}

/// Removal removes and touches nothing else: the reduced list never names
/// the removed identifier, and names exactly the other identifiers the
/// original list named.
pub proof fn law_removal_removes(ids: Seq<Seq<char>>, id: Seq<char>)
    ensures
        !spec_ids_without(ids, id).contains(id),
        forall|x: Seq<char>|
            x != id ==> (spec_ids_without(ids, id).contains(x) <==> ids.contains(x)),
    decreases ids.len(),
{
    if ids.len() == 0 {
        assert forall|x: Seq<char>| x != id implies (spec_ids_without(ids, id).contains(x)
            <==> ids.contains(x)) by {
            assert(!spec_ids_without(ids, id).contains(x));
            assert(!ids.contains(x));
        }
    } else {
        law_removal_removes(ids.drop_first(), id);
        let rest = spec_ids_without(ids.drop_first(), id);
        let whole = spec_ids_without(ids, id);
        if ids[0] == id {
            assert(whole =~= rest);
        } else {
            assert(whole =~= seq![ids[0]] + rest);
            assert(whole[0] == ids[0]);
        }
        if whole.contains(id) {
            let i = choose|i: int| 0 <= i < whole.len() && whole[i] == id;
            if ids[0] == id {
                assert(rest[i] == id);
            } else {
                if i == 0 {
                    assert(whole[0] == ids[0]);
                } else {
                    assert(rest[i - 1] == id);
                }
            }
        }
        assert forall|x: Seq<char>| x != id implies (whole.contains(x) <==> ids.contains(x)) by {
            if whole.contains(x) {
                let i = choose|i: int| 0 <= i < whole.len() && whole[i] == x;
                if ids[0] != id && i == 0 {
                    assert(ids[0] == x);
                } else {
                    let j = if ids[0] == id { i } else { i - 1 };
                    assert(rest[j] == x);
                    assert(ids.drop_first().contains(x));
                    let k = choose|k: int| 0 <= k < ids.drop_first().len() && ids.drop_first()[k]
                        == x;
                    assert(ids[k + 1] == x);
                }
            }
            if ids.contains(x) {
                let i = choose|i: int| 0 <= i < ids.len() && ids[i] == x;
                if i == 0 {
                    assert(whole[0] == x);
                } else {
                    assert(ids.drop_first()[i - 1] == x);
                    assert(ids.drop_first().contains(x));
                    assert(rest.contains(x));
                    let j = choose|j: int| 0 <= j < rest.len() && rest[j] == x;
                    if ids[0] == id {
                        assert(whole[j] == x);
                    } else {
                        assert(whole[j + 1] == x);
                    }
                }
            }
        }
    }
}

/// The words `none` and `null` are the clear-field sentinel, in any ASCII
/// case mix.
pub proof fn law_sentinel_words()
    ensures
        is_clear_sentinel("none"@),
        is_clear_sentinel("null"@),
        is_clear_sentinel("NONE"@),
        is_clear_sentinel("Null"@),
{
    reveal_strlit("none");
    reveal_strlit("null");
    reveal_strlit("NONE");
    reveal_strlit("Null");
    assert(lower_seq("none"@) =~= "none"@);
    assert(lower_seq("null"@) =~= "null"@);
    assert(lower_seq("NONE"@) =~= "none"@);
    assert(lower_seq("Null"@) =~= "null"@);
}

/// The sentinel clears: a sentinel stream token is sent as the empty
/// string, a sentinel member list as the empty list, a sentinel name as the
/// empty string.
pub proof fn law_sentinel_clears(p: SetGroupParamsV)
    ensures
        (match p.stream_id {
            Some(s) => is_clear_sentinel(s),
            None => false,
        }) ==> spec_stream_to_set(p) == Seq::<char>::empty(),
        (match p.clients {
            Some(c) => is_clear_sentinel(c),
            None => false,
        }) ==> spec_clients_to_set(p) == Seq::<Seq<char>>::empty(),
        (match p.name {
            Some(n) => is_clear_sentinel(n),
            None => false,
        }) ==> spec_name_to_set(p) == Seq::<char>::empty(),
{
    reveal_strlit("");
    assert(""@ =~= Seq::<char>::empty());
}

/// The group pipeline sends the cleared stream: with a sentinel stream
/// token supplied, the stream-assignment request carries the empty string.
pub proof fn law_stream_sentinel_request(f: SetGroupFlowV)
    requires
        f.params.stream_id is Some,
        is_clear_sentinel(f.params.stream_id->Some_0),
    ensures
        spec_group_advance(f, 2).1 == ActionV::Send(
            RpcRequestV::GroupSetStream {
                id: f.params.group_id,
                stream_id: Seq::<char>::empty(),
            },
        ),
{
    law_sentinel_clears(f.params);
}

/// Fail fast: a reply that does not classify as success never leads to a
/// mutating request.  At every checked step the orchestration stops in its
/// failed state; the unchecked steps only ever read.
pub proof fn law_no_mutation_after_error(f: SetClientFlowV, resp: Json)
    requires
        spec_in_flight(f.phase),
        !(spec_classify(resp) is Success),
    ensures
        match spec_step(f, resp).1 {
            ActionV::Send(r) => !spec_is_mutating(r),
            _ => true,
        },
{
}

/// Fail fast holds of the group pipeline too: every step of it classifies
/// its reply, so an error reply always stops the orchestration outright.
pub proof fn law_no_mutation_after_error_group(f: SetGroupFlowV, resp: Json)
    requires
        spec_group_in_flight(f.phase),
        !(spec_classify(resp) is Success),
    ensures
        spec_group_step(f, resp).0.phase == SetGroupPhase::Failed,
        spec_group_step(f, resp).1 is Fail,
{
}

/// Fail fast holds of the deletions: an error reply to the existence check
/// or to the deletion itself stops the orchestration, single or batch.
pub proof fn law_no_mutation_after_error_delete(
    f: DeleteClientFlowV,
    b: DeleteClientsFlowV,
    resp: Json,
)
    requires
        !(spec_classify(resp) is Success),
    ensures
        spec_delete_in_flight(f.phase) && f.phase != DeletePhase::AwaitFinalStatus
            ==> spec_delete_step(f, resp).0.phase == DeletePhase::Failed && spec_delete_step(
            f,
            resp,
        ).1 is Fail,
        spec_delete_in_flight(b.phase) && b.phase != DeletePhase::AwaitFinalStatus
            ==> spec_batch_step(b, resp).0.phase == DeletePhase::Failed && spec_batch_step(
            b,
            resp,
        ).1 is Fail,
{
}

/// The internal-error code aborts outright: a reply carrying it, answering
/// the opening client check, fails the orchestration with the missing-
/// entity error, and no further request of any kind goes out.
pub proof fn law_internal_error_aborts(f: SetClientFlowV, resp: Json)
    requires
        f.phase == SetClientPhase::AwaitClientCheck,
        spec_classify(resp) is EntityNotFound,
    ensures
        spec_step(f, resp).0.phase == SetClientPhase::Failed,
        spec_step(f, resp).1 is Fail,
        spec_step(f, resp).1->Fail_0 is EntityNotFound,
{
}

} // verus!
