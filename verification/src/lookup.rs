//! Pure lookups into a status document: finding clients, groups and streams
//! by identifier, listing the identifiers that exist, and computing group
//! memberships.  Every optional field degrades to a documented default;
//! nothing here can fail.

use vstd::prelude::*;
use crate::json::{Json, spec_get_str, spec_get_str_or, spec_get_arr};
use crate::strutil::str_eq;

verus! {

/// The groups of a status document; an absent or malformed `groups` member
/// reads as no groups.
pub open spec fn spec_doc_groups(doc: Json) -> Seq<Json> {
    match spec_get_arr(doc, "groups"@) {
        Some(gs) => gs,
        None => Seq::empty(),
    }
}

/// Whether the document carries a `groups` sequence at all.
pub open spec fn spec_has_groups(doc: Json) -> bool {
    spec_get_arr(doc, "groups"@) is Some
}

/// The streams of a status document.
pub open spec fn spec_doc_streams(doc: Json) -> Seq<Json> {
    match spec_get_arr(doc, "streams"@) {
        Some(ss) => ss,
        None => Seq::empty(),
    }
}

/// The clients of one group node.
pub open spec fn spec_group_clients(g: Json) -> Seq<Json> {
    match spec_get_arr(g, "clients"@) {
        Some(cs) => cs,
        None => Seq::empty(),
    }
}

/// Does the entity node carry `id` as its identifier?
pub open spec fn spec_id_matches(e: Json, id: Seq<char>) -> bool {
    spec_get_str(e, "id"@) == Some(id)
}

/// Does the group node answer to `ident`, by identifier or by name?
pub open spec fn spec_group_answers_to(g: Json, ident: Seq<char>) -> bool {
    spec_get_str(g, "id"@) == Some(ident) || spec_get_str(g, "name"@) == Some(ident)
}

/// First client with identifier `id` in a client list.
pub open spec fn spec_find_in_clients(cs: Seq<Json>, id: Seq<char>) -> Option<Json>
    decreases cs.len(),
{
    if cs.len() == 0 {
        None
    } else if spec_id_matches(cs[0], id) {
        Some(cs[0])
    } else {
        spec_find_in_clients(cs.drop_first(), id)
    }
}

/// First client with identifier `id` across the groups, in document order.
pub open spec fn spec_find_client_in_groups(gs: Seq<Json>, id: Seq<char>) -> Option<Json>
    decreases gs.len(),
{
    if gs.len() == 0 {
        None
    } else {
        match spec_find_in_clients(spec_group_clients(gs[0]), id) {
            Some(c) => Some(c),
            None => spec_find_client_in_groups(gs.drop_first(), id),
        }
    }
}

/// The client node with identifier `id`, if the document has one.
pub open spec fn spec_find_client(doc: Json, id: Seq<char>) -> Option<Json> {
    spec_find_client_in_groups(spec_doc_groups(doc), id)
}

/// Does the group hold a client with identifier `id`?
pub open spec fn spec_group_has_client(g: Json, id: Seq<char>) -> bool {
    spec_find_in_clients(spec_group_clients(g), id) is Some
}

/// First group holding a client with identifier `id`.
pub open spec fn spec_find_holding_group(gs: Seq<Json>, id: Seq<char>) -> Option<Json>
    decreases gs.len(),
{
    if gs.len() == 0 {
        None
    } else if spec_group_has_client(gs[0], id) {
        Some(gs[0])
    } else {
        spec_find_holding_group(gs.drop_first(), id)
    }
}

/// The identifier of the group a client currently belongs to, read off the
/// first group whose member list names the client; a holding group without
/// an identifier of its own reads as `unknown`.
pub open spec fn spec_find_client_group(doc: Json, id: Seq<char>) -> Option<Seq<char>> {
    match spec_find_holding_group(spec_doc_groups(doc), id) {
        Some(g) => Some(spec_get_str_or(g, "id"@, "unknown"@)),
        None => None,
    }
}

/// First group answering to `ident` by identifier or name.
pub open spec fn spec_find_group_in(gs: Seq<Json>, ident: Seq<char>) -> Option<Json>
    decreases gs.len(),
{
    if gs.len() == 0 {
        None
    } else if spec_group_answers_to(gs[0], ident) {
        Some(gs[0])
    } else {
        spec_find_group_in(gs.drop_first(), ident)
    }
}

/// The group answering to `ident`, if the document has one.
pub open spec fn spec_find_group(doc: Json, ident: Seq<char>) -> Option<Json> {
    spec_find_group_in(spec_doc_groups(doc), ident)
}

/// First stream with identifier `id`.
pub open spec fn spec_find_stream_in(ss: Seq<Json>, id: Seq<char>) -> Option<Json>
    decreases ss.len(),
{
    if ss.len() == 0 {
        None
    } else if spec_id_matches(ss[0], id) {
        Some(ss[0])
    } else {
        spec_find_stream_in(ss.drop_first(), id)
    }
}

/// The stream with identifier `id`, if the document has one.
pub open spec fn spec_find_stream(doc: Json, id: Seq<char>) -> Option<Json> {
    spec_find_stream_in(spec_doc_streams(doc), id)
}

/// The groups assigned to stream `sid`, in document order.
pub open spec fn spec_groups_for_stream(gs: Seq<Json>, sid: Seq<char>) -> Seq<Json>
    decreases gs.len(),
{
    if gs.len() == 0 {
        Seq::empty()
    } else {
        (if spec_get_str(gs[0], "stream_id"@) == Some(sid) {
            seq![gs[0]]
        } else {
            Seq::<Json>::empty()
        }) + spec_groups_for_stream(gs.drop_first(), sid)
    }
}

/// The identifiers carried by a client list, in order; clients without one
/// are passed over.
pub open spec fn spec_client_ids_of(cs: Seq<Json>) -> Seq<Seq<char>>
    decreases cs.len(),
{
    if cs.len() == 0 {
        Seq::empty()
    } else {
        (match spec_get_str(cs[0], "id"@) {
            Some(id) => seq![id],
            None => Seq::<Seq<char>>::empty(),
        }) + spec_client_ids_of(cs.drop_first())
    }
}

/// All client identifiers of the document, group by group.
pub open spec fn spec_all_client_ids(gs: Seq<Json>) -> Seq<Seq<char>>
    decreases gs.len(),
{
    if gs.len() == 0 {
        Seq::empty()
    } else {
        spec_client_ids_of(spec_group_clients(gs[0])) + spec_all_client_ids(gs.drop_first())
    }
}

/// `ids` with every occurrence of `id` removed.
pub open spec fn spec_ids_without(ids: Seq<Seq<char>>, id: Seq<char>) -> Seq<Seq<char>>
    decreases ids.len(),
{
    if ids.len() == 0 {
        Seq::empty()
    } else {
        (if ids[0] == id {
            Seq::<Seq<char>>::empty()
        } else {
            seq![ids[0]]
        }) + spec_ids_without(ids.drop_first(), id)
    }
}

/// `ids` with `id` appended, unless it is already present.
pub open spec fn spec_ids_with(ids: Seq<Seq<char>>, id: Seq<char>) -> Seq<Seq<char>> {
    if ids.contains(id) {
        ids
    } else {
        ids.push(id)
    }
}

pub proof fn lemma_client_ids_append(a: Seq<Json>, b: Seq<Json>)
    ensures
        spec_client_ids_of(a + b) == spec_client_ids_of(a) + spec_client_ids_of(b),
    decreases a.len(),
{
    if a.len() == 0 {
        assert(a + b =~= b);
        assert(spec_client_ids_of(a) + spec_client_ids_of(b) =~= spec_client_ids_of(b));
    } else {
        assert((a + b).drop_first() =~= a.drop_first() + b);
        assert((a + b)[0] == a[0]);
        lemma_client_ids_append(a.drop_first(), b);
        assert(spec_client_ids_of(a + b) =~= spec_client_ids_of(a) + spec_client_ids_of(b));
    }
}

pub proof fn lemma_all_client_ids_append(a: Seq<Json>, b: Seq<Json>)
    ensures
        spec_all_client_ids(a + b) == spec_all_client_ids(a) + spec_all_client_ids(b),
    decreases a.len(),
{
    if a.len() == 0 {
        assert(a + b =~= b);
        assert(spec_all_client_ids(a) + spec_all_client_ids(b) =~= spec_all_client_ids(b));
    } else {
        assert((a + b).drop_first() =~= a.drop_first() + b);
        assert((a + b)[0] == a[0]);
        lemma_all_client_ids_append(a.drop_first(), b);
        assert(spec_all_client_ids(a + b) =~= spec_all_client_ids(a) + spec_all_client_ids(b));
    }
}

pub proof fn lemma_ids_without_append(a: Seq<Seq<char>>, b: Seq<Seq<char>>, id: Seq<char>)
    ensures
        spec_ids_without(a + b, id) == spec_ids_without(a, id) + spec_ids_without(b, id),
    decreases a.len(),
{
    if a.len() == 0 {
        assert(a + b =~= b);
        assert(spec_ids_without(a, id) + spec_ids_without(b, id) =~= spec_ids_without(b, id));
    } else {
        assert((a + b).drop_first() =~= a.drop_first() + b);
        assert((a + b)[0] == a[0]);
        lemma_ids_without_append(a.drop_first(), b, id);
        assert(spec_ids_without(a + b, id) =~= spec_ids_without(a, id) + spec_ids_without(b, id));
    }
}

/// Does the entity node carry `id` as its identifier?
pub fn id_matches(e: &Json, id: &str) -> (r: bool)
    ensures
        r == spec_id_matches(*e, id@),
{
    match e.get_str("id") {
        Some(s) => str_eq(s, id),
        None => false,
    }
}

/// The groups of the document, when it carries any.
pub fn doc_groups<'a>(doc: &'a Json) -> (r: Option<&'a Vec<Json>>)
    ensures
        match r {
            Some(gs) => spec_has_groups(*doc) && spec_doc_groups(*doc) == gs@,
            None => !spec_has_groups(*doc) && spec_doc_groups(*doc) == Seq::<Json>::empty(),
        },
{
    match doc.get("groups") {
        Some(g) => match g.as_arr() {
            Some(a) => Some(a),
            None => None,
        },
        None => None,
    }
}

/// The streams of the document.
pub fn doc_streams<'a>(doc: &'a Json) -> (r: Option<&'a Vec<Json>>)
    ensures
        match r {
            Some(ss) => spec_get_arr(*doc, "streams"@) == Some(ss@) && spec_doc_streams(*doc)
                == ss@,
            None => spec_get_arr(*doc, "streams"@) is None && spec_doc_streams(*doc) == Seq::<
                Json,
            >::empty(),
        },
{
    match doc.get("streams") {
        Some(s) => match s.as_arr() {
            Some(a) => Some(a),
            None => None,
        },
        None => None,
    }
}

/// The clients of one group node.
pub fn group_clients<'a>(g: &'a Json) -> (r: Option<&'a Vec<Json>>)
    ensures
        match r {
            Some(cs) => spec_get_arr(*g, "clients"@) == Some(cs@) && spec_group_clients(*g) == cs@,
            None => spec_get_arr(*g, "clients"@) is None && spec_group_clients(*g) == Seq::<
                Json,
            >::empty(),
        },
{
    match g.get("clients") {
        Some(c) => match c.as_arr() {
            Some(a) => Some(a),
            None => None,
        },
        None => None,
    }
}

/// Finds the client with identifier `id` inside one client list.
fn find_in_clients<'a>(cs: &'a Vec<Json>, id: &str) -> (r: Option<&'a Json>)
    ensures
        match r {
            Some(c) => spec_find_in_clients(cs@, id@) == Some(*c),
            None => spec_find_in_clients(cs@, id@) is None,
        },
{
    let n = cs.len();
    proof {
        assert(cs@.skip(0) =~= cs@);
    }
    let mut i: usize = 0;
    while i < n
        invariant
            n == cs@.len(),
            i <= n,
            spec_find_in_clients(cs@, id@) == spec_find_in_clients(cs@.skip(i as int), id@),
        decreases n - i,
    {
        proof {
            assert(cs@.skip(i as int)[0] == cs@[i as int]);
        }
        if id_matches(&cs[i], id) {
            return Some(&cs[i]);
        }
        proof {
            assert(cs@.skip(i as int).drop_first() =~= cs@.skip(i as int + 1));
        }
        i += 1;
    }
    proof {
        assert(cs@.skip(n as int) =~= Seq::<Json>::empty());
    }
    None
}

/// Finds the client with identifier `id` anywhere in the document.  The
/// result is the unique match when client identifiers are unique, the first
/// in document order otherwise, and nothing when no client matches.
pub fn find_client<'a>(doc: &'a Json, id: &str) -> (r: Option<&'a Json>)
    ensures
        match r {
            Some(c) => spec_find_client(*doc, id@) == Some(*c),
            None => spec_find_client(*doc, id@) is None,
        },
{
    let groups = match doc_groups(doc) {
        Some(gs) => gs,
        None => {
            return None;
        },
    };
    let n = groups.len();
    proof {
        assert(groups@.skip(0) =~= groups@);
    }
    let mut gi: usize = 0;
    while gi < n
        invariant
            n == groups@.len(),
            gi <= n,
            spec_doc_groups(*doc) == groups@,
            spec_find_client(*doc, id@) == spec_find_client_in_groups(
                groups@.skip(gi as int),
                id@,
            ),
        decreases n - gi,
    {
        proof {
            assert(groups@.skip(gi as int)[0] == groups@[gi as int]);
        }
        if let Some(cs) = group_clients(&groups[gi]) {
            if let Some(c) = find_in_clients(cs, id) {
                return Some(c);
            }
        }
        proof {
            assert(groups@.skip(gi as int).drop_first() =~= groups@.skip(gi as int + 1));
        }
        gi += 1;
    }
    proof {
        assert(groups@.skip(n as int) =~= Seq::<Json>::empty());
    }
    None
}

/// Finds the group answering to `ident`, by identifier or by name.
pub fn find_group<'a>(doc: &'a Json, ident: &str) -> (r: Option<&'a Json>)
    ensures
        match r {
            Some(g) => spec_find_group(*doc, ident@) == Some(*g),
            None => spec_find_group(*doc, ident@) is None,
        },
{
    let groups = match doc_groups(doc) {
        Some(gs) => gs,
        None => {
            return None;
        },
    };
    let n = groups.len();
    proof {
        assert(groups@.skip(0) =~= groups@);
    }
    let mut i: usize = 0;
    while i < n
        invariant
            n == groups@.len(),
            i <= n,
            spec_doc_groups(*doc) == groups@,
            spec_find_group(*doc, ident@) == spec_find_group_in(groups@.skip(i as int), ident@),
        decreases n - i,
    {
        proof {
            assert(groups@.skip(i as int)[0] == groups@[i as int]);
        }
        let g = &groups[i];
        let id_hit = id_matches(g, ident);
        let name_hit = match g.get_str("name") {
            Some(s) => str_eq(s, ident),
            None => false,
        };
        if id_hit || name_hit {
            return Some(g);
        }
        proof {
            assert(groups@.skip(i as int).drop_first() =~= groups@.skip(i as int + 1));
        }
        i += 1;
    }
    proof {
        assert(groups@.skip(n as int) =~= Seq::<Json>::empty());
    }
    None
}

/// Finds the stream with identifier `id`.
pub fn find_stream<'a>(doc: &'a Json, id: &str) -> (r: Option<&'a Json>)
    ensures
        match r {
            Some(s) => spec_find_stream(*doc, id@) == Some(*s),
            None => spec_find_stream(*doc, id@) is None,
        },
{
    let streams = match doc_streams(doc) {
        Some(ss) => ss,
        None => {
            return None;
        },
    };
    let n = streams.len();
    proof {
        assert(streams@.skip(0) =~= streams@);
    }
    let mut i: usize = 0;
    while i < n
        invariant
            n == streams@.len(),
            i <= n,
            spec_doc_streams(*doc) == streams@,
            spec_find_stream(*doc, id@) == spec_find_stream_in(streams@.skip(i as int), id@),
        decreases n - i,
    {
        proof {
            assert(streams@.skip(i as int)[0] == streams@[i as int]);
        }
        if id_matches(&streams[i], id) {
            return Some(&streams[i]);
        }
        proof {
            assert(streams@.skip(i as int).drop_first() =~= streams@.skip(i as int + 1));
        }
        i += 1;
    }
    proof {
        assert(streams@.skip(n as int) =~= Seq::<Json>::empty());
    }
    None
}

/// Finds the first group whose member list names the client `id`.
pub fn find_holding_group<'a>(doc: &'a Json, id: &str) -> (r: Option<&'a Json>)
    ensures
        match r {
            Some(g) => spec_find_holding_group(spec_doc_groups(*doc), id@) == Some(*g),
            None => spec_find_holding_group(spec_doc_groups(*doc), id@) is None,
        },
{
    let groups = match doc_groups(doc) {
        Some(gs) => gs,
        None => {
            return None;
        },
    };
    let n = groups.len();
    proof {
        assert(groups@.skip(0) =~= groups@);
    }
    let mut i: usize = 0;
    while i < n
        invariant
            n == groups@.len(),
            i <= n,
            spec_doc_groups(*doc) == groups@,
            spec_find_holding_group(spec_doc_groups(*doc), id@) == spec_find_holding_group(
                groups@.skip(i as int),
                id@,
            ),
        decreases n - i,
    {
        proof {
            assert(groups@.skip(i as int)[0] == groups@[i as int]);
        }
        let g = &groups[i];
        let holds = match group_clients(g) {
            Some(cs) => match find_in_clients(cs, id) {
                Some(_) => true,
                None => false,
            },
            None => false,
        };
        if holds {
            return Some(g);
        }
        proof {
            assert(groups@.skip(i as int).drop_first() =~= groups@.skip(i as int + 1));
        }
        i += 1;
    }
    proof {
        assert(groups@.skip(n as int) =~= Seq::<Json>::empty());
    }
    None
}

/// The identifier of the group a client belongs to, when any group's member
/// list names it.
pub fn find_client_group(doc: &Json, id: &str) -> (r: Option<String>)
    ensures
        match r {
            Some(gid) => spec_find_client_group(*doc, id@) == Some(gid@),
            None => spec_find_client_group(*doc, id@) is None,
        },
{
    match find_holding_group(doc, id) {
        Some(g) => Some(g.get_str_or("id", "unknown").to_owned()),
        None => None,
    }
}

/// The groups assigned to stream `sid`, in document order.
pub fn find_groups_for_stream<'a>(doc: &'a Json, sid: &str) -> (r: Vec<&'a Json>)
    ensures
        r@.len() == spec_groups_for_stream(spec_doc_groups(*doc), sid@).len(),
        forall|k: int|
            0 <= k < r@.len() ==> *r@[k] == spec_groups_for_stream(spec_doc_groups(*doc), sid@)[k],
{
    let mut out: Vec<&'a Json> = Vec::new();
    let groups = match doc_groups(doc) {
        Some(gs) => gs,
        None => {
            return out;
        },
    };
    let n = groups.len();
    let mut i: usize = 0;
    proof {
        assert(groups@.take(0) =~= Seq::<Json>::empty());
    }
    while i < n
        invariant
            n == groups@.len(),
            i <= n,
            spec_doc_groups(*doc) == groups@,
            out@.len() == spec_groups_for_stream(groups@.take(i as int), sid@).len(),
            forall|k: int|
                0 <= k < out@.len() ==> *out@[k] == spec_groups_for_stream(
                    groups@.take(i as int),
                    sid@,
                )[k],
        decreases n - i,
    {
        let g = &groups[i];
        let hit = match g.get_str("stream_id") {
            Some(s) => str_eq(s, sid),
            None => false,
        };
        proof {
            lemma_groups_for_stream_append(groups@.take(i as int), seq![groups@[i as int]], sid@);
            assert(groups@.take(i as int + 1) =~= groups@.take(i as int) + seq![groups@[i as int]]);
            assert(seq![groups@[i as int]].drop_first() =~= Seq::<Json>::empty());
            assert(spec_groups_for_stream(Seq::<Json>::empty(), sid@) =~= Seq::<Json>::empty());
        }
        if hit {
            out.push(g);
            proof {
                assert(spec_groups_for_stream(seq![groups@[i as int]], sid@) =~= seq![
                    groups@[i as int],
                ]);
            }
        } else {
            proof {
                assert(spec_groups_for_stream(seq![groups@[i as int]], sid@) =~= Seq::<
                    Json,
                >::empty());
                assert(spec_groups_for_stream(groups@.take(i as int + 1), sid@)
                    =~= spec_groups_for_stream(groups@.take(i as int), sid@));
            }
        }
        i += 1;
    }
    proof {
        assert(groups@.take(n as int) =~= groups@);
    }
    out
}

pub proof fn lemma_groups_for_stream_append(a: Seq<Json>, b: Seq<Json>, sid: Seq<char>)
    ensures
        spec_groups_for_stream(a + b, sid) == spec_groups_for_stream(a, sid)
            + spec_groups_for_stream(b, sid),
    decreases a.len(),
{
    if a.len() == 0 {
        assert(a + b =~= b);
        assert(spec_groups_for_stream(a, sid) + spec_groups_for_stream(b, sid)
            =~= spec_groups_for_stream(b, sid));
    } else {
        assert((a + b).drop_first() =~= a.drop_first() + b);
        assert((a + b)[0] == a[0]);
        lemma_groups_for_stream_append(a.drop_first(), b, sid);
        assert(spec_groups_for_stream(a + b, sid) =~= spec_groups_for_stream(a, sid)
            + spec_groups_for_stream(b, sid));
    }
}

/// The identifiers carried by one group's member list.
pub fn group_client_ids(g: &Json) -> (r: Vec<String>)
    ensures
        r.deep_view() == spec_client_ids_of(spec_group_clients(*g)),
{
    let mut out: Vec<String> = Vec::new();
    let cs = match group_clients(g) {
        Some(cs) => cs,
        None => {
            return out;
        },
    };
    let n = cs.len();
    let mut i: usize = 0;
    proof {
        assert(cs@.take(0) =~= Seq::<Json>::empty());
    }
    while i < n
        invariant
            n == cs@.len(),
            i <= n,
            spec_group_clients(*g) == cs@,
            out.deep_view() == spec_client_ids_of(cs@.take(i as int)),
        decreases n - i,
    {
        let ghost prev = out.deep_view();
        proof {
            lemma_client_ids_append(cs@.take(i as int), seq![cs@[i as int]]);
            assert(cs@.take(i as int + 1) =~= cs@.take(i as int) + seq![cs@[i as int]]);
            assert(seq![cs@[i as int]].drop_first() =~= Seq::<Json>::empty());
            assert(spec_client_ids_of(Seq::<Json>::empty()) =~= Seq::<Seq<char>>::empty());
        }
        match cs[i].get_str("id") {
            Some(id) => {
                out.push(id.to_owned());
                proof {
                    assert(spec_client_ids_of(seq![cs@[i as int]]) =~= seq![
                        spec_get_str(cs@[i as int], "id"@)->Some_0,
                    ]);
                    assert(out.deep_view() =~= prev.push(spec_get_str(cs@[i as int], "id"@)->Some_0));
                    assert(out.deep_view() =~= spec_client_ids_of(cs@.take(i as int + 1)));
                }
            },
            None => {
                proof {
                    assert(spec_client_ids_of(seq![cs@[i as int]]) =~= Seq::<Seq<char>>::empty());
                    assert(out.deep_view() =~= spec_client_ids_of(cs@.take(i as int + 1)));
                }
            },
        }
        i += 1;
    }
    proof {
        assert(cs@.take(n as int) =~= cs@);
    }
    out
}

/// All client identifiers known to the document, for diagnostics.
pub fn get_available_clients(doc: &Json) -> (r: Vec<String>)
    ensures
        r.deep_view() == spec_all_client_ids(spec_doc_groups(*doc)),
{
    let mut out: Vec<String> = Vec::new();
    let groups = match doc_groups(doc) {
        Some(gs) => gs,
        None => {
            return out;
        },
    };
    let n = groups.len();
    let mut i: usize = 0;
    proof {
        assert(groups@.take(0) =~= Seq::<Json>::empty());
    }
    while i < n
        invariant
            n == groups@.len(),
            i <= n,
            spec_doc_groups(*doc) == groups@,
            out.deep_view() == spec_all_client_ids(groups@.take(i as int)),
        decreases n - i,
    {
        let ghost prev = out.deep_view();
        let mut ids = group_client_ids(&groups[i]);
        let ghost ids_v = ids.deep_view();
        out.append(&mut ids);
        proof {
            lemma_all_client_ids_append(groups@.take(i as int), seq![groups@[i as int]]);
            assert(groups@.take(i as int + 1) =~= groups@.take(i as int) + seq![groups@[i as int]]);
            assert(seq![groups@[i as int]].drop_first() =~= Seq::<Json>::empty());
            assert(spec_all_client_ids(Seq::<Json>::empty()) =~= Seq::<Seq<char>>::empty());
            assert(spec_all_client_ids(seq![groups@[i as int]]) =~= spec_client_ids_of(
                spec_group_clients(groups@[i as int]),
            ));
            assert(out.deep_view() =~= prev + ids_v);
            assert(out.deep_view() =~= spec_all_client_ids(groups@.take(i as int + 1)));
        }
        i += 1;
    }
    proof {
        assert(groups@.take(n as int) =~= groups@);
    }
    out
}

/// `ids` with every occurrence of `id` removed.
pub fn ids_without(ids: &Vec<String>, id: &str) -> (r: Vec<String>)
    ensures
        r.deep_view() == spec_ids_without(ids.deep_view(), id@),
{
    let mut out: Vec<String> = Vec::new();
    let n = ids.len();
    let mut i: usize = 0;
    proof {
        assert(ids.deep_view().take(0) =~= Seq::<Seq<char>>::empty());
    }
    while i < n
        invariant
            n == ids@.len(),
            i <= n,
            out.deep_view() == spec_ids_without(ids.deep_view().take(i as int), id@),
        decreases n - i,
    {
        let ghost prev = out.deep_view();
        let ghost dv = ids.deep_view();
        proof {
            lemma_ids_without_append(dv.take(i as int), seq![dv[i as int]], id@);
            assert(dv.take(i as int + 1) =~= dv.take(i as int) + seq![dv[i as int]]);
            assert(seq![dv[i as int]].drop_first() =~= Seq::<Seq<char>>::empty());
            assert(spec_ids_without(Seq::<Seq<char>>::empty(), id@) =~= Seq::<Seq<char>>::empty());
            assert(dv[i as int] == ids@[i as int]@);
        }
        if !str_eq(ids[i].as_str(), id) {
            out.push(ids[i].clone());
            proof {
                assert(spec_ids_without(seq![dv[i as int]], id@) =~= seq![dv[i as int]]);
                assert(out.deep_view() =~= prev.push(dv[i as int]));
                assert(out.deep_view() =~= spec_ids_without(dv.take(i as int + 1), id@));
            }
        } else {
            proof {
                assert(spec_ids_without(seq![dv[i as int]], id@) =~= Seq::<Seq<char>>::empty());
                assert(out.deep_view() =~= spec_ids_without(dv.take(i as int + 1), id@));
            }
        }
        i += 1;
    }
    proof {
        assert(ids.deep_view().take(n as int) =~= ids.deep_view());
    }
    out
}

/// Does the list name `id`?
pub fn ids_contain(ids: &Vec<String>, id: &str) -> (r: bool)
    ensures
        r == ids.deep_view().contains(id@),
{
    let n = ids.len();
    let mut i: usize = 0;
    while i < n
        invariant
            n == ids@.len(),
            i <= n,
            forall|j: int| 0 <= j < i ==> ids.deep_view()[j] != id@,
        decreases n - i,
    {
        if str_eq(ids[i].as_str(), id) {
            proof {
                assert(ids.deep_view()[i as int] == id@);
            }
            return true;
        }
        i += 1;
    }
    proof {
        assert(forall|j: int| 0 <= j < ids.deep_view().len() ==> ids.deep_view()[j] != id@);
    }
    false
}

/// Takes ownership of `ids` and appends `id` unless it is already named.
pub fn ids_with(ids: Vec<String>, id: &str) -> (r: Vec<String>)
    ensures
        r.deep_view() == spec_ids_with(ids.deep_view(), id@),
{
    let ghost dv = ids.deep_view();
    let mut out = ids;
    if !ids_contain(&out, id) {
        out.push(id.to_owned());
        proof {
            assert(out.deep_view() =~= dv.push(id@));
        }
    }
    out
}

} // verus!
