//! The read-only projections: each `get` command's table, computed from a
//! status document.  Every absent field falls back to its documented
//! default; a lookup that misses reports the identifiers that do exist.

use vstd::prelude::*;
use vstd::string::StringExecFns;
use crate::json::{
    Json,
    spec_get2,
    spec_get_arr,
    spec_as_str,
    spec_get_str_or,
    spec_get_bool_or,
    spec_get_i64,
    spec_as_i64,
    spec_get_str,
};
use crate::lookup::{
    spec_doc_groups,
    spec_has_groups,
    spec_doc_streams,
    spec_group_clients,
    spec_find_client,
    spec_find_group,
    spec_find_stream,
    spec_find_holding_group,
    spec_groups_for_stream,
    spec_client_ids_of,
    spec_all_client_ids,
    doc_groups,
    doc_streams,
    group_clients,
    find_client,
    find_group,
    find_stream,
    find_groups_for_stream,
    get_available_clients,
};
use crate::numfmt::{spec_dec_int, i64_to_string};
use crate::strutil::{spec_join, join_strings};
use crate::table::{spec_render_table, render_table};
use crate::error::{CtlError, CtlErrorV};

verus! {

/// String member `k2` of object member `k1`, with a default.
pub open spec fn spec_get2_str_or(j: Json, k1: Seq<char>, k2: Seq<char>, default: Seq<char>) -> Seq<
    char,
> {
    match spec_get2(j, k1, k2) {
        Some(v) => match spec_as_str(v) {
            Some(s) => s,
            None => default,
        },
        None => default,
    }
}

fn get2_str_or<'a>(j: &'a Json, k1: &str, k2: &str, default: &'a str) -> (r: &'a str)
    ensures
        r@ == spec_get2_str_or(*j, k1@, k2@, default@),
{
    match j.get2(k1, k2) {
        Some(v) => match v.as_str() {
            Some(s) => s,
            None => default,
        },
        None => default,
    }
}

/// The connection column of a client: `connected` exactly when the document
/// says so, `disconnected` otherwise or when the field is absent.
pub open spec fn spec_connected_str(c: Json) -> Seq<char> {
    if spec_get_bool_or(c, "connected"@, false) {
        "connected"@
    } else {
        "disconnected"@
    }
}

pub fn connected_str(c: &Json) -> (r: &'static str)
    ensures
        r@ == spec_connected_str(*c),
{
    if c.get_bool_or("connected", false) {
        "connected"
    } else {
        "disconnected"
    }
}

/// The mute column of a group: `muted` or `unmuted`, an absent field
/// reading as unmuted.
pub open spec fn spec_muted_status_str(g: Json) -> Seq<char> {
    if spec_get_bool_or(g, "muted"@, false) {
        "muted"@
    } else {
        "unmuted"@
    }
}

pub fn muted_status_str(g: &Json) -> (r: &'static str)
    ensures
        r@ == spec_muted_status_str(*g),
{
    if g.get_bool_or("muted", false) {
        "muted"
    } else {
        "unmuted"
    }
}

/// The instance column of a client: the loosely typed `config.instance`
/// normalized to text — a representable number in decimal, a string as it
/// stands, anything else as `unknown`.
pub open spec fn spec_instance_str(c: Json) -> Seq<char> {
    match spec_get2(c, "config"@, "instance"@) {
        Some(Json::Int(n)) => spec_dec_int(n as int),
        Some(Json::Str(s)) => s@,
        _ => "unknown"@,
    }
}

pub fn instance_str(c: &Json) -> (r: String)
    ensures
        r@ == spec_instance_str(*c),
{
    match c.get2("config", "instance") {
        Some(v) => {
            if v.is_number() {
                match v.as_i64() {
                    Some(n) => i64_to_string(n),
                    None => "unknown".to_owned(),
                }
            } else {
                match v.as_str() {
                    Some(s) => s.to_owned(),
                    None => "unknown".to_owned(),
                }
            }
        },
        None => "unknown".to_owned(),
    }
}

/// Whether the document reports the client's volume muted; absent reads as
/// not muted.
pub open spec fn spec_vol_muted(c: Json) -> bool {
    match spec_get2(c, "config"@, "volume"@) {
        Some(v) => spec_get_bool_or(v, "muted"@, false),
        None => false,
    }
}

/// `true` or `false`, the rendering of the mute flag.
pub open spec fn spec_bool_str(b: bool) -> Seq<char> {
    if b {
        "true"@
    } else {
        "false"@
    }
}

pub fn vol_muted_str(c: &Json) -> (r: &'static str)
    ensures
        r@ == spec_bool_str(spec_vol_muted(*c)),
{
    let muted = match c.get2("config", "volume") {
        Some(v) => v.get_bool_or("muted", false),
        None => false,
    };
    if muted {
        "true"
    } else {
        "false"
    }
}

/// The volume column: `config.volume.percent` in decimal, or `unknown`.
pub open spec fn spec_volume_str(c: Json) -> Seq<char> {
    match spec_get2(c, "config"@, "volume"@) {
        Some(v) => match spec_get_i64(v, "percent"@) {
            Some(n) => spec_dec_int(n as int),
            None => "unknown"@,
        },
        None => "unknown"@,
    }
}

pub fn volume_str(c: &Json) -> (r: String)
    ensures
        r@ == spec_volume_str(*c),
{
    match c.get2("config", "volume") {
        Some(v) => match v.get_i64("percent") {
            Some(n) => i64_to_string(n),
            None => "unknown".to_owned(),
        },
        None => "unknown".to_owned(),
    }
}

/// The latency column: `config.latency` in decimal, or `unknown`.
pub open spec fn spec_latency_str(c: Json) -> Seq<char> {
    match spec_get2(c, "config"@, "latency"@) {
        Some(v) => match spec_as_i64(v) {
            Some(n) => spec_dec_int(n as int),
            None => "unknown"@,
        },
        None => "unknown"@,
    }
}

pub fn latency_str(c: &Json) -> (r: String)
    ensures
        r@ == spec_latency_str(*c),
{
    match c.get2("config", "latency") {
        Some(v) => match v.as_i64() {
            Some(n) => i64_to_string(n),
            None => "unknown".to_owned(),
        },
        None => "unknown".to_owned(),
    }
}

/// The server version the document reports, under
/// `server.snapserver.version`.
pub open spec fn spec_version_str(doc: Json) -> Seq<char> {
    match spec_get2(doc, "server"@, "snapserver"@) {
        Some(v) => spec_get_str_or(v, "version"@, "unknown"@),
        None => "unknown"@,
    }
}

pub fn version_str<'a>(doc: &'a Json) -> (r: &'a str)
    ensures
        r@ == spec_version_str(*doc),
{
    match doc.get2("server", "snapserver") {
        Some(v) => v.get_str_or("version", "unknown"),
        None => "unknown",
    }
}

/// The clients column of a group: its member identifiers joined by a comma
/// and a space, or `None` when the group carries no member list at all.
pub open spec fn spec_clients_cell(g: Json) -> Seq<char> {
    match spec_get_arr(g, "clients"@) {
        Some(cs) => spec_join(spec_client_ids_of(cs), ", "@),
        None => "None"@,
    }
}

/// The member identifiers of a group, joined for display.
pub fn get_client_ids(g: &Json) -> (r: String)
    ensures
        r@ == spec_clients_cell(*g),
{
    match group_clients(g) {
        Some(_) => {
            let ids = crate::lookup::group_client_ids(g);
            join_strings(&ids, ", ")
        },
        None => "None".to_owned(),
    }
}

/// The identifier and stream of the group a client belongs to, both
/// `unknown` when no group names the client.
pub open spec fn spec_group_and_stream_for_client(doc: Json, id: Seq<char>) -> (Seq<char>, Seq<
    char,
>) {
    match spec_find_holding_group(spec_doc_groups(doc), id) {
        Some(g) => (
            spec_get_str_or(g, "id"@, "unknown"@),
            spec_get_str_or(g, "stream_id"@, "unknown"@),
        ),
        None => ("unknown"@, "unknown"@),
    }
}

/// Finds the group and stream shown beside a client.
pub fn find_group_and_stream_for_client(doc: &Json, id: &str) -> (r: (String, String))
    ensures
        (r.0@, r.1@) == spec_group_and_stream_for_client(*doc, id@),
{
    let held = crate::lookup::find_holding_group(doc, id);
    match held {
        Some(g) => {
            let gid = g.get_str_or("id", "unknown").to_owned();
            let sid = g.get_str_or("stream_id", "unknown").to_owned();
            (gid, sid)
        },
        None => ("unknown".to_owned(), "unknown".to_owned()),
    }
}

/// The identifiers quoted and listed in brackets, as diagnostics show them.
pub open spec fn spec_debug_list(ids: Seq<Seq<char>>) -> Seq<char> {
    "["@ + spec_join(Seq::new(ids.len(), |i: int| seq!['"'] + ids[i] + seq!['"']), ", "@) + "]"@
}

/// Renders a list of identifiers the way diagnostics show them.
pub fn debug_list(ids: &Vec<String>) -> (r: String)
    ensures
        r@ == spec_debug_list(ids.deep_view()),
{
    let n = ids.len();
    let mut quoted: Vec<String> = Vec::new();
    let mut i: usize = 0;
    proof {
        reveal_strlit("\"");
        assert("\""@ =~= seq!['"']);
    }
    while i < n
        invariant
            n == ids@.len(),
            i <= n,
            "\""@ == seq!['"'],
            quoted@.len() == i,
            forall|k: int|
                0 <= k < i ==> quoted.deep_view()[k] == seq!['"'] + ids.deep_view()[k] + seq!['"'],
        decreases n - i,
    {
        let mut q = "\"".to_owned();
        q.append(ids[i].as_str());
        q.append("\"");
        let ghost prevv = quoted@;
        let ghost prevdv = quoted.deep_view();
        quoted.push(q);
        proof {
            assert forall|k: int| 0 <= k < i + 1 implies quoted.deep_view()[k] == seq!['"']
                + ids.deep_view()[k] + seq!['"'] by {
                assert(quoted.deep_view()[k] == quoted@[k]@);
                if k < i {
                    assert(quoted@[k] == prevv[k]);
                    assert(prevdv[k] == prevv[k]@);
                }
            }
        }
        i += 1;
    }
    let mut r = "[".to_owned();
    r.append(join_strings(&quoted, ", ").as_str());
    r.append("]");
    proof {
        assert(quoted.deep_view() =~= Seq::new(
            ids.deep_view().len(),
            |i: int| seq!['"'] + ids.deep_view()[i] + seq!['"'],
        ));
        assert(r@ =~= spec_debug_list(ids.deep_view()));
    }
    r
}

/// One row of the clients overview: the client beside the group that holds
/// it.
pub open spec fn spec_overview_row(g: Json, c: Json) -> Seq<Seq<char>> {
    seq![
        spec_get_str_or(c, "id"@, "unknown"@),
        spec_connected_str(c),
        spec_get_str_or(g, "id"@, "unknown"@),
        spec_get_str_or(g, "stream_id"@, "unknown"@),
    ]
}

/// The overview rows one group contributes, one per client it holds.
pub open spec fn spec_group_overview_rows(g: Json) -> Seq<Seq<Seq<char>>> {
    Seq::new(spec_group_clients(g).len(), |i: int| spec_overview_row(g, spec_group_clients(g)[i]))
}

/// The overview rows of the whole document, group by group.
pub open spec fn spec_clients_overview_rows(gs: Seq<Json>) -> Seq<Seq<Seq<char>>>
    decreases gs.len(),
{
    if gs.len() == 0 {
        Seq::empty()
    } else {
        spec_group_overview_rows(gs[0]) + spec_clients_overview_rows(gs.drop_first())
    }
}

pub proof fn lemma_overview_rows_append(a: Seq<Json>, b: Seq<Json>)
    ensures
        spec_clients_overview_rows(a + b) == spec_clients_overview_rows(a)
            + spec_clients_overview_rows(b),
    decreases a.len(),
{
    if a.len() == 0 {
        assert(a + b =~= b);
        assert(spec_clients_overview_rows(a) + spec_clients_overview_rows(b)
            =~= spec_clients_overview_rows(b));
    } else {
        assert((a + b).drop_first() =~= a.drop_first() + b);
        assert((a + b)[0] == a[0]);
        lemma_overview_rows_append(a.drop_first(), b);
        assert(spec_clients_overview_rows(a + b) =~= spec_clients_overview_rows(a)
            + spec_clients_overview_rows(b));
    }
}

/// The header row of the clients overview.
pub open spec fn spec_clients_headers() -> Seq<Seq<char>> {
    seq!["CLIENT ID"@, "STATUS"@, "GROUP ID"@, "STREAM ID"@]
}

fn clients_headers() -> (r: Vec<String>)
    ensures
        r.deep_view() == spec_clients_headers(),
{
    let r = vec![
        "CLIENT ID".to_owned(),
        "STATUS".to_owned(),
        "GROUP ID".to_owned(),
        "STREAM ID".to_owned(),
    ];
    proof {
        assert(r.deep_view() =~= spec_clients_headers());
    }
    r
}

/// The rendered clients overview of a document.
pub open spec fn spec_clients_table(doc: Json) -> Seq<char> {
    if !spec_has_groups(doc) {
        "No clients found (no groups available).\n"@
    } else {
        spec_render_table(spec_clients_headers(), spec_clients_overview_rows(spec_doc_groups(doc)))
    }
}

/// Builds the overview rows of every client the document names.
pub fn clients_overview_rows(doc: &Json) -> (r: Vec<Vec<String>>)
    ensures
        r.deep_view() == spec_clients_overview_rows(spec_doc_groups(*doc)),
        forall|k: int| 0 <= k < r@.len() ==> #[trigger] r.deep_view()[k].len() == 4,
{
    let mut rows: Vec<Vec<String>> = Vec::new();
    let groups = match doc_groups(doc) {
        Some(gs) => gs,
        None => {
            return rows;
        },
    };
    let gn = groups.len();
    let mut gi: usize = 0;
    proof {
        assert(groups@.take(0) =~= Seq::<Json>::empty());
    }
    while gi < gn
        invariant
            gn == groups@.len(),
            gi <= gn,
            spec_doc_groups(*doc) == groups@,
            rows.deep_view() == spec_clients_overview_rows(groups@.take(gi as int)),
            forall|k: int| 0 <= k < rows@.len() ==> #[trigger] rows.deep_view()[k].len() == 4,
        decreases gn - gi,
    {
        let g = &groups[gi];
        proof {
            lemma_overview_rows_append(groups@.take(gi as int), seq![groups@[gi as int]]);
            assert(groups@.take(gi as int + 1) =~= groups@.take(gi as int)
                + seq![groups@[gi as int]]);
            assert(seq![groups@[gi as int]].drop_first() =~= Seq::<Json>::empty());
            assert(spec_clients_overview_rows(Seq::<Json>::empty()) =~= Seq::<
                Seq<Seq<char>>,
            >::empty());
            assert(spec_clients_overview_rows(seq![groups@[gi as int]]) =~= spec_group_overview_rows(
                groups@[gi as int],
            ));
        }
        if let Some(cs) = group_clients(g) {
            let cn = cs.len();
            let mut ci: usize = 0;
            let ghost base = rows.deep_view();
            while ci < cn
                invariant
                    cn == cs@.len(),
                    ci <= cn,
                    spec_group_clients(groups@[gi as int]) == cs@,
                    gi < groups@.len(),
                    *g == groups@[gi as int],
                    rows.deep_view() == base + Seq::new(
                        ci as nat,
                        |i: int| spec_overview_row(groups@[gi as int], cs@[i]),
                    ),
                    forall|k: int| 0 <= k < rows@.len() ==> #[trigger] rows.deep_view()[k].len()
                        == 4,
                decreases cn - ci,
            {
                let c = &cs[ci];
                let row = vec![
                    c.get_str_or("id", "unknown").to_owned(),
                    connected_str(c).to_owned(),
                    g.get_str_or("id", "unknown").to_owned(),
                    g.get_str_or("stream_id", "unknown").to_owned(),
                ];
                proof {
                    assert(row.deep_view() =~= spec_overview_row(groups@[gi as int], cs@[ci as int]));
                }
                let ghost prevv = rows@;
                let ghost prevdv = rows.deep_view();
                rows.push(row);
                proof {
                    assert forall|k: int| 0 <= k < rows@.len() implies #[trigger] rows.deep_view()[k]
                        == prevdv.push(spec_overview_row(groups@[gi as int], cs@[ci as int]))[k] by {
                        assert(rows.deep_view()[k] == rows@[k].deep_view());
                        if k < prevv.len() {
                            assert(rows@[k] == prevv[k]);
                            assert(prevdv[k] == prevv[k].deep_view());
                        }
                    }
                    assert(rows.deep_view() =~= prevdv.push(
                        spec_overview_row(groups@[gi as int], cs@[ci as int]),
                    ));
                    assert(rows.deep_view() =~= base + Seq::new(
                        ci as nat + 1,
                        |i: int| spec_overview_row(groups@[gi as int], cs@[i]),
                    ));
                }
                ci += 1;
            }
            proof {
                assert(Seq::new(cn as nat, |i: int| spec_overview_row(groups@[gi as int], cs@[i]))
                    =~= spec_group_overview_rows(groups@[gi as int]));
                assert(rows.deep_view() =~= spec_clients_overview_rows(
                    groups@.take(gi as int + 1),
                ));
            }
        } else {
            proof {
                assert(spec_group_overview_rows(groups@[gi as int]) =~= Seq::<
                    Seq<Seq<char>>,
                >::empty());
                assert(rows.deep_view() =~= spec_clients_overview_rows(
                    groups@.take(gi as int + 1),
                ));
            }
        }
        gi += 1;
    }
    proof {
        assert(groups@.take(gn as int) =~= groups@);
    }
    rows
}

/// The clients overview table, or the informational line when the document
/// carries no groups.
pub fn get_clients(doc: &Json) -> (r: String)
    ensures
        r@ == spec_clients_table(*doc),
{
    match doc_groups(doc) {
        None => "No clients found (no groups available).\n".to_owned(),
        Some(_) => {
            let headers = clients_headers();
            let rows = clients_overview_rows(doc);
            render_table(&headers, &rows)
        },
    }
}

/// One row of the groups overview.
pub open spec fn spec_group_row(g: Json) -> Seq<Seq<char>> {
    seq![
        spec_get_str_or(g, "id"@, "unknown"@),
        spec_get_str_or(g, "name"@, ""@),
        spec_muted_status_str(g),
        spec_get_str_or(g, "stream_id"@, "none"@),
        spec_clients_cell(g),
    ]
}

/// The groups overview, one row per group.
pub open spec fn spec_groups_rows(gs: Seq<Json>) -> Seq<Seq<Seq<char>>> {
    Seq::new(gs.len(), |i: int| spec_group_row(gs[i]))
}

/// The header row of the groups overview.
pub open spec fn spec_groups_headers() -> Seq<Seq<char>> {
    seq!["GROUP ID"@, "NAME"@, "STATUS"@, "STREAM ID"@, "CLIENTS"@]
}

/// The rendered groups overview of a document.
pub open spec fn spec_groups_table(doc: Json) -> Seq<char> {
    if !spec_has_groups(doc) || spec_doc_groups(doc).len() == 0 {
        "No groups found.\n"@
    } else {
        spec_render_table(spec_groups_headers(), spec_groups_rows(spec_doc_groups(doc)))
    }
}

fn group_overview_row(g: &Json) -> (r: Vec<String>)
    ensures
        r.deep_view() == spec_group_row(*g),
{
    let r = vec![
        g.get_str_or("id", "unknown").to_owned(),
        g.get_str_or("name", "").to_owned(),
        muted_status_str(g).to_owned(),
        g.get_str_or("stream_id", "none").to_owned(),
        get_client_ids(g),
    ];
    proof {
        assert(r.deep_view() =~= spec_group_row(*g));
    }
    r
}

/// The groups overview table, or the informational line when the document
/// names no group.
pub fn get_groups(doc: &Json) -> (r: String)
    ensures
        r@ == spec_groups_table(*doc),
{
    let groups = match doc_groups(doc) {
        Some(gs) => gs,
        None => {
            return "No groups found.\n".to_owned();
        },
    };
    let gn = groups.len();
    if gn == 0 {
        return "No groups found.\n".to_owned();
    }
    let mut rows: Vec<Vec<String>> = Vec::new();
    let mut gi: usize = 0;
    while gi < gn
        invariant
            gn == groups@.len(),
            gi <= gn,
            rows@.len() == gi,
            forall|k: int|
                0 <= k < gi ==> #[trigger] rows.deep_view()[k] == spec_group_row(groups@[k]),
        decreases gn - gi,
    {
        let row = group_overview_row(&groups[gi]);
        let ghost prevv = rows@;
        let ghost prevdv = rows.deep_view();
        rows.push(row);
        proof {
            assert forall|k: int| 0 <= k < gi + 1 implies #[trigger] rows.deep_view()[k]
                == spec_group_row(groups@[k]) by {
                assert(rows.deep_view()[k] == rows@[k].deep_view());
                if k < gi {
                    assert(rows@[k] == prevv[k]);
                    assert(prevdv[k] == prevv[k].deep_view());
                }
            }
        }
        gi += 1;
    }
    let headers = vec![
        "GROUP ID".to_owned(),
        "NAME".to_owned(),
        "STATUS".to_owned(),
        "STREAM ID".to_owned(),
        "CLIENTS".to_owned(),
    ];
    proof {
        assert(headers.deep_view() =~= spec_groups_headers());
        assert(rows.deep_view() =~= spec_groups_rows(groups@));
        assert(forall|k: int|
            0 <= k < rows@.len() ==> #[trigger] rows.deep_view()[k].len()
                == headers.deep_view().len());
    }
    render_table(&headers, &rows)
}

/// The labels diagnostics use for the groups that exist: identifier and
/// name side by side.
pub open spec fn spec_group_labels(gs: Seq<Json>) -> Seq<Seq<char>> {
    Seq::new(
        gs.len(),
        |i: int|
            spec_get_str_or(gs[i], "id"@, "unknown"@) + " ("@ + spec_get_str_or(
                gs[i],
                "name"@,
                "unnamed"@,
            ) + ")"@,
    )
}

/// The labels of all groups the document names, for diagnostics.
pub fn get_available_groups(doc: &Json) -> (r: Vec<String>)
    ensures
        r.deep_view() == spec_group_labels(spec_doc_groups(*doc)),
{
    let mut out: Vec<String> = Vec::new();
    let groups = match doc_groups(doc) {
        Some(gs) => gs,
        None => {
            proof {
                assert(out.deep_view() =~= spec_group_labels(spec_doc_groups(*doc)));
            }
            return out;
        },
    };
    let gn = groups.len();
    let mut gi: usize = 0;
    while gi < gn
        invariant
            gn == groups@.len(),
            gi <= gn,
            spec_doc_groups(*doc) == groups@,
            out@.len() == gi,
            forall|k: int|
                0 <= k < gi ==> #[trigger] out.deep_view()[k] == spec_group_labels(groups@)[k],
        decreases gn - gi,
    {
        let g = &groups[gi];
        let mut label = g.get_str_or("id", "unknown").to_owned();
        label.append(" (");
        label.append(g.get_str_or("name", "unnamed"));
        label.append(")");
        let ghost prevv = out@;
        let ghost prevdv = out.deep_view();
        out.push(label);
        proof {
            assert forall|k: int| 0 <= k < gi + 1 implies #[trigger] out.deep_view()[k]
                == spec_group_labels(groups@)[k] by {
                assert(out.deep_view()[k] == out@[k]@);
                if k < gi {
                    assert(out@[k] == prevv[k]);
                    assert(prevdv[k] == prevv[k]@);
                }
            }
        }
        gi += 1;
    }
    proof {
        assert(out.deep_view() =~= spec_group_labels(groups@));
    }
    out
}

/// The header row of the single-group view.
pub open spec fn spec_group_detail_headers() -> Seq<Seq<char>> {
    seq!["GROUP ID"@, "NAME"@, "VERSION"@, "STATUS"@, "STREAM ID"@, "CLIENTS"@]
}

/// The row the single-group view shows.
pub open spec fn spec_group_detail_row(doc: Json, g: Json) -> Seq<Seq<char>> {
    seq![
        spec_get_str_or(g, "id"@, "unknown"@),
        spec_get_str_or(g, "name"@, "undefined"@),
        spec_version_str(doc),
        spec_muted_status_str(g),
        spec_get_str_or(g, "stream_id"@, "none"@),
        spec_clients_cell(g),
    ]
}

/// The message shown when no group answers to `ident`.
pub open spec fn spec_group_not_found_msg(doc: Json, ident: Seq<char>) -> Seq<char> {
    "Group with identifier '"@ + ident + "' not found. Available groups: "@ + spec_debug_list(
        spec_group_labels(spec_doc_groups(doc)),
    )
}

/// The single-group table: the group addressed by identifier or name, or
/// the identifiers that do exist.
pub fn get_group(doc: &Json, identifier: &str) -> (r: Result<String, CtlError>)
    ensures
        match r {
            Ok(s) => spec_find_group(*doc, identifier@) is Some && s@ == spec_render_table(
                spec_group_detail_headers(),
                seq![spec_group_detail_row(*doc, spec_find_group(*doc, identifier@)->Some_0)],
            ),
            Err(e) => spec_find_group(*doc, identifier@) is None && e@ == (
            CtlErrorV::EntityNotFound { message: spec_group_not_found_msg(*doc, identifier@) }),
        },
{
    let g = match find_group(doc, identifier) {
        Some(g) => g,
        None => {
            let labels = get_available_groups(doc);
            let mut message = "Group with identifier '".to_owned();
            message.append(identifier);
            message.append("' not found. Available groups: ");
            message.append(debug_list(&labels).as_str());
            return Err(CtlError::EntityNotFound { message });
        },
    };
    let row = vec![
        g.get_str_or("id", "unknown").to_owned(),
        g.get_str_or("name", "undefined").to_owned(),
        version_str(doc).to_owned(),
        muted_status_str(g).to_owned(),
        g.get_str_or("stream_id", "none").to_owned(),
        get_client_ids(g),
    ];
    let headers = vec![
        "GROUP ID".to_owned(),
        "NAME".to_owned(),
        "VERSION".to_owned(),
        "STATUS".to_owned(),
        "STREAM ID".to_owned(),
        "CLIENTS".to_owned(),
    ];
    let rows = vec![row];
    proof {
        assert(headers.deep_view() =~= spec_group_detail_headers());
        assert(rows@[0].deep_view() =~= spec_group_detail_row(*doc, *g));
        assert(rows.deep_view() =~= seq![spec_group_detail_row(*doc, *g)]);
    }
    Ok(render_table(&headers, &rows))
}

/// The header row of the single-client view.
pub open spec fn spec_client_detail_headers() -> Seq<Seq<char>> {
    seq![
        "CLIENT ID"@,
        "STATUS"@,
        "INSTANCE"@,
        "NAME"@,
        "IP"@,
        "MAC"@,
        "VERSION"@,
        "MUTED"@,
        "VOLUME"@,
        "GROUP ID"@,
        "STREAM ID"@,
    ]
}

/// The row the single-client view shows.
pub open spec fn spec_client_detail_row(doc: Json, c: Json) -> Seq<Seq<char>> {
    seq![
        spec_get_str_or(c, "id"@, "unknown"@),
        spec_connected_str(c),
        spec_instance_str(c),
        spec_get2_str_or(c, "config"@, "name"@, ""@),
        spec_get2_str_or(c, "host"@, "ip"@, "unknown"@),
        spec_get2_str_or(c, "host"@, "mac"@, "unknown"@),
        spec_get2_str_or(c, "snapclient"@, "version"@, "unknown"@),
        spec_bool_str(spec_vol_muted(c)),
        spec_volume_str(c),
        spec_group_and_stream_for_client(doc, spec_get_str_or(c, "id"@, "unknown"@)).0,
        spec_group_and_stream_for_client(doc, spec_get_str_or(c, "id"@, "unknown"@)).1,
    ]
}

/// The message shown when no client carries identifier `id`.
pub open spec fn spec_client_not_found_msg(doc: Json, id: Seq<char>) -> Seq<char> {
    "Client with ID '"@ + id + "' not found. Available clients: "@ + spec_debug_list(
        spec_all_client_ids(spec_doc_groups(doc)),
    )
}

/// The single-client table: the client's fields beside its group and
/// stream, or the identifiers that do exist.
pub fn get_client(doc: &Json, client_id: &str) -> (r: Result<String, CtlError>)
    ensures
        match r {
            Ok(s) => spec_find_client(*doc, client_id@) is Some && s@ == spec_render_table(
                spec_client_detail_headers(),
                seq![spec_client_detail_row(*doc, spec_find_client(*doc, client_id@)->Some_0)],
            ),
            Err(e) => spec_find_client(*doc, client_id@) is None && e@ == (
            CtlErrorV::EntityNotFound { message: spec_client_not_found_msg(*doc, client_id@) }),
        },
{
    let c = match find_client(doc, client_id) {
        Some(c) => c,
        None => {
            let ids = get_available_clients(doc);
            let mut message = "Client with ID '".to_owned();
            message.append(client_id);
            message.append("' not found. Available clients: ");
            message.append(debug_list(&ids).as_str());
            return Err(CtlError::EntityNotFound { message });
        },
    };
    let id_str = c.get_str_or("id", "unknown");
    let located = find_group_and_stream_for_client(doc, id_str);
    let row = vec![
        id_str.to_owned(),
        connected_str(c).to_owned(),
        instance_str(c),
        get2_str_or(c, "config", "name", "").to_owned(),
        get2_str_or(c, "host", "ip", "unknown").to_owned(),
        get2_str_or(c, "host", "mac", "unknown").to_owned(),
        get2_str_or(c, "snapclient", "version", "unknown").to_owned(),
        vol_muted_str(c).to_owned(),
        volume_str(c),
        located.0,
        located.1,
    ];
    let headers = vec![
        "CLIENT ID".to_owned(),
        "STATUS".to_owned(),
        "INSTANCE".to_owned(),
        "NAME".to_owned(),
        "IP".to_owned(),
        "MAC".to_owned(),
        "VERSION".to_owned(),
        "MUTED".to_owned(),
        "VOLUME".to_owned(),
        "GROUP ID".to_owned(),
        "STREAM ID".to_owned(),
    ];
    let rows = vec![row];
    proof {
        assert(headers.deep_view() =~= spec_client_detail_headers());
        assert(rows@[0].deep_view() =~= spec_client_detail_row(*doc, *c));
        assert(rows.deep_view() =~= seq![spec_client_detail_row(*doc, *c)]);
    }
    Ok(render_table(&headers, &rows))
}

/// One row of the streams overview.
pub open spec fn spec_stream_row(s: Json) -> Seq<Seq<char>> {
    seq![spec_get_str_or(s, "id"@, "unknown"@), spec_get_str_or(s, "status"@, "unknown"@)]
}

/// The rendered streams overview of a document.
pub open spec fn spec_streams_table(doc: Json) -> Seq<char> {
    spec_render_table(
        seq!["STREAM ID"@, "STATUS"@],
        Seq::new(spec_doc_streams(doc).len(), |i: int| spec_stream_row(spec_doc_streams(doc)[i])),
    )
}

/// The streams overview table: one row per stream.
pub fn get_streams(doc: &Json) -> (r: String)
    ensures
        r@ == spec_streams_table(*doc),
{
    let mut rows: Vec<Vec<String>> = Vec::new();
    let headers = vec!["STREAM ID".to_owned(), "STATUS".to_owned()];
    let streams_opt = doc_streams(doc);
    if let Some(streams) = streams_opt {
        let sn = streams.len();
        let mut si: usize = 0;
        while si < sn
            invariant
                sn == streams@.len(),
                si <= sn,
                rows@.len() == si,
                forall|k: int|
                    0 <= k < si ==> #[trigger] rows.deep_view()[k] == spec_stream_row(streams@[k]),
            decreases sn - si,
        {
            let s = &streams[si];
            let row = vec![
                s.get_str_or("id", "unknown").to_owned(),
                s.get_str_or("status", "unknown").to_owned(),
            ];
            proof {
                assert(row.deep_view() =~= spec_stream_row(streams@[si as int]));
            }
            let ghost prevv = rows@;
            let ghost prevdv = rows.deep_view();
            rows.push(row);
            proof {
                assert forall|k: int| 0 <= k < si + 1 implies #[trigger] rows.deep_view()[k]
                    == spec_stream_row(streams@[k]) by {
                    assert(rows.deep_view()[k] == rows@[k].deep_view());
                    if k < si {
                        assert(rows@[k] == prevv[k]);
                        assert(prevdv[k] == prevv[k].deep_view());
                    }
                }
            }
            si += 1;
        }
    }
    proof {
        assert(headers.deep_view() =~= seq!["STREAM ID"@, "STATUS"@]);
        assert(rows.deep_view() =~= Seq::new(
            spec_doc_streams(*doc).len(),
            |i: int| spec_stream_row(spec_doc_streams(*doc)[i]),
        ));
        assert(forall|k: int|
            0 <= k < rows@.len() ==> #[trigger] rows.deep_view()[k].len()
                == headers.deep_view().len());
    }
    render_table(&headers, &rows)
}

/// The identifiers carried by the stream list, for diagnostics.
pub open spec fn spec_stream_ids(ss: Seq<Json>) -> Seq<Seq<char>>
    decreases ss.len(),
{
    if ss.len() == 0 {
        Seq::empty()
    } else {
        (match spec_get_str(ss[0], "id"@) {
            Some(id) => seq![id],
            None => Seq::<Seq<char>>::empty(),
        }) + spec_stream_ids(ss.drop_first())
    }
}

pub proof fn lemma_stream_ids_append(a: Seq<Json>, b: Seq<Json>)
    ensures
        spec_stream_ids(a + b) == spec_stream_ids(a) + spec_stream_ids(b),
    decreases a.len(),
{
    if a.len() == 0 {
        assert(a + b =~= b);
        assert(spec_stream_ids(a) + spec_stream_ids(b) =~= spec_stream_ids(b));
    } else {
        assert((a + b).drop_first() =~= a.drop_first() + b);
        assert((a + b)[0] == a[0]);
        lemma_stream_ids_append(a.drop_first(), b);
        assert(spec_stream_ids(a + b) =~= spec_stream_ids(a) + spec_stream_ids(b));
    }
}

/// The identifiers of all streams the document names, for diagnostics.
pub fn get_available_streams(doc: &Json) -> (r: Vec<String>)
    ensures
        r.deep_view() == spec_stream_ids(spec_doc_streams(*doc)),
{
    let mut out: Vec<String> = Vec::new();
    let streams = match doc_streams(doc) {
        Some(ss) => ss,
        None => {
            proof {
                assert(out.deep_view() =~= spec_stream_ids(spec_doc_streams(*doc)));
            }
            return out;
        },
    };
    let sn = streams.len();
    let mut si: usize = 0;
    proof {
        assert(streams@.take(0) =~= Seq::<Json>::empty());
    }
    while si < sn
        invariant
            sn == streams@.len(),
            si <= sn,
            spec_doc_streams(*doc) == streams@,
            out.deep_view() == spec_stream_ids(streams@.take(si as int)),
        decreases sn - si,
    {
        let ghost prev = out.deep_view();
        proof {
            lemma_stream_ids_append(streams@.take(si as int), seq![streams@[si as int]]);
            assert(streams@.take(si as int + 1) =~= streams@.take(si as int)
                + seq![streams@[si as int]]);
            assert(seq![streams@[si as int]].drop_first() =~= Seq::<Json>::empty());
            assert(spec_stream_ids(Seq::<Json>::empty()) =~= Seq::<Seq<char>>::empty());
        }
        match streams[si].get_str("id") {
            Some(id) => {
                out.push(id.to_owned());
                proof {
                    assert(spec_stream_ids(seq![streams@[si as int]]) =~= seq![
                        spec_get_str(streams@[si as int], "id"@)->Some_0,
                    ]);
                    assert(out.deep_view() =~= prev.push(
                        spec_get_str(streams@[si as int], "id"@)->Some_0,
                    ));
                    assert(out.deep_view() =~= spec_stream_ids(streams@.take(si as int + 1)));
                }
            },
            None => {
                proof {
                    assert(spec_stream_ids(seq![streams@[si as int]]) =~= Seq::<Seq<char>>::empty());
                    assert(out.deep_view() =~= spec_stream_ids(streams@.take(si as int + 1)));
                }
            },
        }
        si += 1;
    }
    proof {
        assert(streams@.take(sn as int) =~= streams@);
    }
    out
}

/// The header row of the single-stream view.
pub open spec fn spec_stream_detail_headers() -> Seq<Seq<char>> {
    seq!["STREAM ID"@, "STATUS"@, "VERSION"@, "GROUP ID"@, "CLIENTS"@, "URI"@]
}

/// The rows the single-stream view shows: the stream's own fields on the
/// first line, and one line per further group assigned to it.
pub open spec fn spec_stream_detail_rows(doc: Json, s: Json) -> Seq<Seq<Seq<char>>> {
    let sid = spec_get_str_or(s, "id"@, "unknown"@);
    let status = spec_get_str_or(s, "status"@, "unknown"@);
    let version = spec_version_str(doc);
    let uri = spec_get2_str_or(s, "uri"@, "raw"@, "unknown"@);
    let gs = spec_groups_for_stream(spec_doc_groups(doc), sid);
    if gs.len() == 0 {
        seq![seq![sid, status, version, "None"@, "None"@, uri]]
    } else {
        seq![
            seq![
                sid,
                status,
                version,
                spec_get_str_or(gs[0], "id"@, "unknown"@),
                spec_clients_cell(gs[0]),
                uri,
            ],
        ] + Seq::new(
            (gs.len() - 1) as nat,
            |i: int|
                seq![
                    ""@,
                    ""@,
                    ""@,
                    spec_get_str_or(gs[i + 1], "id"@, "unknown"@),
                    spec_clients_cell(gs[i + 1]),
                    uri,
                ],
        )
    }
}

/// The message shown when no stream carries identifier `id`.
pub open spec fn spec_stream_not_found_msg(doc: Json, id: Seq<char>) -> Seq<char> {
    "Stream with ID '"@ + id + "' not found. Available streams: "@ + spec_debug_list(
        spec_stream_ids(spec_doc_streams(doc)),
    )
}

/// The single-stream table: the stream's fields and the groups assigned to
/// it, or the identifiers that do exist.
pub fn get_stream(doc: &Json, stream_id: &str) -> (r: Result<String, CtlError>)
    ensures
        match r {
            Ok(s) => spec_find_stream(*doc, stream_id@) is Some && s@ == spec_render_table(
                spec_stream_detail_headers(),
                spec_stream_detail_rows(*doc, spec_find_stream(*doc, stream_id@)->Some_0),
            ),
            Err(e) => spec_find_stream(*doc, stream_id@) is None && e@ == (
            CtlErrorV::EntityNotFound { message: spec_stream_not_found_msg(*doc, stream_id@) }),
        },
{
    let s = match find_stream(doc, stream_id) {
        Some(s) => s,
        None => {
            let ids = get_available_streams(doc);
            let mut message = "Stream with ID '".to_owned();
            message.append(stream_id);
            message.append("' not found. Available streams: ");
            message.append(debug_list(&ids).as_str());
            return Err(CtlError::EntityNotFound { message });
        },
    };
    let sid = s.get_str_or("id", "unknown");
    let status = s.get_str_or("status", "unknown");
    let version = version_str(doc);
    let uri = get2_str_or(s, "uri", "raw", "unknown");
    let held = find_groups_for_stream(doc, sid);
    let ghost gsv = spec_groups_for_stream(spec_doc_groups(*doc), sid@);
    let mut rows: Vec<Vec<String>> = Vec::new();
    if held.len() == 0 {
        let row = vec![
            sid.to_owned(),
            status.to_owned(),
            version.to_owned(),
            "None".to_owned(),
            "None".to_owned(),
            uri.to_owned(),
        ];
        rows.push(row);
        proof {
            assert(rows@[0].deep_view() =~= spec_stream_detail_rows(*doc, *s)[0]);
            assert(rows.deep_view() =~= spec_stream_detail_rows(*doc, *s));
        }
    } else {
        let first = held[0];
        let row = vec![
            sid.to_owned(),
            status.to_owned(),
            version.to_owned(),
            first.get_str_or("id", "unknown").to_owned(),
            get_client_ids(first),
            uri.to_owned(),
        ];
        rows.push(row);
        let hn = held.len();
        let mut hi: usize = 1;
        while hi < hn
            invariant
                hn == held@.len(),
                1 <= hi <= hn,
                gsv == spec_groups_for_stream(spec_doc_groups(*doc), sid@),
                hn == gsv.len(),
                forall|k: int| 0 <= k < hn ==> *held@[k] == gsv[k],
                rows@.len() == hi,
                rows.deep_view()[0] == spec_stream_detail_rows(*doc, *s)[0],
                spec_stream_detail_rows(*doc, *s).len() == hn,
                forall|k: int|
                    1 <= k < hi ==> #[trigger] rows.deep_view()[k] == spec_stream_detail_rows(
                        *doc,
                        *s,
                    )[k],
                sid@ == spec_get_str_or(*s, "id"@, "unknown"@),
                uri@ == spec_get2_str_or(*s, "uri"@, "raw"@, "unknown"@),
            decreases hn - hi,
        {
            let g = held[hi];
            let row = vec![
                "".to_owned(),
                "".to_owned(),
                "".to_owned(),
                g.get_str_or("id", "unknown").to_owned(),
                get_client_ids(g),
                uri.to_owned(),
            ];
            proof {
                assert(*held@[hi as int] == gsv[hi as int]);
                assert(row.deep_view() =~= spec_stream_detail_rows(*doc, *s)[hi as int]);
            }
            let ghost prevv = rows@;
            let ghost prevdv = rows.deep_view();
            rows.push(row);
            proof {
                assert forall|k: int| 0 <= k < hi + 1 implies #[trigger] rows.deep_view()[k]
                    == spec_stream_detail_rows(*doc, *s)[k] by {
                    assert(rows.deep_view()[k] == rows@[k].deep_view());
                    if k < hi {
                        assert(rows@[k] == prevv[k]);
                        assert(prevdv[k] == prevv[k].deep_view());
                    }
                }
            }
            hi += 1;
        }
        proof {
            assert(rows.deep_view() =~= spec_stream_detail_rows(*doc, *s));
        }
    }
    let headers = vec![
        "STREAM ID".to_owned(),
        "STATUS".to_owned(),
        "VERSION".to_owned(),
        "GROUP ID".to_owned(),
        "CLIENTS".to_owned(),
        "URI".to_owned(),
    ];
    proof {
        assert(headers.deep_view() =~= spec_stream_detail_headers());
        assert(forall|k: int|
            0 <= k < rows@.len() ==> #[trigger] rows.deep_view()[k].len()
                == headers.deep_view().len());
    }
    Ok(render_table(&headers, &rows))
}

/// The header row of the view shown after a client mutation.
pub open spec fn spec_client_full_headers() -> Seq<Seq<char>> {
    seq![
        "CLIENT ID"@,
        "STATUS"@,
        "INSTANCE"@,
        "NAME"@,
        "IP"@,
        "MAC"@,
        "VERSION"@,
        "MUTED"@,
        "VOLUME"@,
        "LATENCY"@,
        "GROUP ID"@,
        "GROUP NAME"@,
        "STREAM ID"@,
    ]
}

/// The row shown after a client mutation: the client's fields beside the
/// group information the orchestration gathered.
pub open spec fn spec_client_full_row(
    c: Json,
    group_id: Seq<char>,
    group_name: Seq<char>,
    stream_id: Seq<char>,
) -> Seq<Seq<char>> {
    seq![
        spec_get_str_or(c, "id"@, "unknown"@),
        spec_connected_str(c),
        spec_instance_str(c),
        spec_get2_str_or(c, "config"@, "name"@, "unknown"@),
        spec_get2_str_or(c, "host"@, "ip"@, "unknown"@),
        spec_get2_str_or(c, "host"@, "mac"@, "unknown"@),
        spec_get2_str_or(c, "snapclient"@, "version"@, "unknown"@),
        spec_bool_str(spec_vol_muted(c)),
        spec_volume_str(c),
        spec_latency_str(c),
        group_id,
        group_name,
        stream_id,
    ]
}

/// The rendered table shown after a client mutation.
pub open spec fn spec_client_full_table(
    c: Json,
    group_id: Seq<char>,
    group_name: Seq<char>,
    stream_id: Seq<char>,
) -> Seq<char> {
    spec_render_table(
        spec_client_full_headers(),
        seq![spec_client_full_row(c, group_id, group_name, stream_id)],
    )
}

/// Renders the confirmation table shown after a client mutation.
pub fn client_full_table(c: &Json, group_id: &str, group_name: &str, stream_id: &str) -> (r:
    String)
    ensures
        r@ == spec_client_full_table(*c, group_id@, group_name@, stream_id@),
{
    let row = vec![
        c.get_str_or("id", "unknown").to_owned(),
        connected_str(c).to_owned(),
        instance_str(c),
        get2_str_or(c, "config", "name", "unknown").to_owned(),
        get2_str_or(c, "host", "ip", "unknown").to_owned(),
        get2_str_or(c, "host", "mac", "unknown").to_owned(),
        get2_str_or(c, "snapclient", "version", "unknown").to_owned(),
        vol_muted_str(c).to_owned(),
        volume_str(c),
        latency_str(c),
        group_id.to_owned(),
        group_name.to_owned(),
        stream_id.to_owned(),
    ];
    let headers = vec![
        "CLIENT ID".to_owned(),
        "STATUS".to_owned(),
        "INSTANCE".to_owned(),
        "NAME".to_owned(),
        "IP".to_owned(),
        "MAC".to_owned(),
        "VERSION".to_owned(),
        "MUTED".to_owned(),
        "VOLUME".to_owned(),
        "LATENCY".to_owned(),
        "GROUP ID".to_owned(),
        "GROUP NAME".to_owned(),
        "STREAM ID".to_owned(),
    ];
    let rows = vec![row];
    proof {
        assert(headers.deep_view() =~= spec_client_full_headers());
        assert(rows@[0].deep_view() =~= spec_client_full_row(
            *c,
            group_id@,
            group_name@,
            stream_id@,
        ));
        assert(rows.deep_view() =~= seq![
            spec_client_full_row(*c, group_id@, group_name@, stream_id@),
        ]);
    }
    render_table(&headers, &rows)
}

} // verus!
