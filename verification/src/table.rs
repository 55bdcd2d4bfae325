//! Rendering of the column-aligned text tables: every cell is padded to its
//! column's width, columns are two spaces apart, and a table without rows
//! renders as a single informational line.

use vstd::prelude::*;
use vstd::string::{StrSliceExecFns, StringExecFns};
use crate::strutil::{spec_join, join_strings};

verus! {

/// `n` spaces.
pub open spec fn spec_spaces(n: nat) -> Seq<char> {
    Seq::new(n, |i: int| ' ')
}

/// `s` padded with spaces on the right to width `w`; a longer cell is kept
/// whole.
pub open spec fn spec_pad(s: Seq<char>, w: int) -> Seq<char> {
    if s.len() >= w {
        s
    } else {
        s + spec_spaces((w - s.len()) as nat)
    }
}

/// The width column `i` needs over `rows`, starting from `base`, the width
/// of its header.
pub open spec fn spec_col_width_rows(rows: Seq<Seq<Seq<char>>>, i: int, base: int) -> int
    decreases rows.len(),
{
    if rows.len() == 0 {
        base
    } else {
        let first = if 0 <= i < rows[0].len() && rows[0][i].len() > base {
            rows[0][i].len() as int
        } else {
            base
        };
        spec_col_width_rows(rows.drop_first(), i, first)
    }
}

/// The width of every column: the longest cell of the column, the header
/// counted in.
pub open spec fn spec_col_widths(headers: Seq<Seq<char>>, rows: Seq<Seq<Seq<char>>>) -> Seq<int> {
    Seq::new(headers.len(), |i: int| spec_col_width_rows(rows, i, headers[i].len() as int))
}

/// One rendered line: each cell padded to its column's width, cells joined
/// by two spaces.
pub open spec fn spec_row_line(cells: Seq<Seq<char>>, widths: Seq<int>) -> Seq<char> {
    spec_join(Seq::new(cells.len(), |i: int| spec_pad(cells[i], widths[i])), "  "@)
}

/// The rendered data lines, one per row, each ended by a newline.
pub open spec fn spec_table_lines(rows: Seq<Seq<Seq<char>>>, widths: Seq<int>) -> Seq<char>
    decreases rows.len(),
{
    if rows.len() == 0 {
        Seq::empty()
    } else {
        spec_row_line(rows[0], widths) + seq!['\n'] + spec_table_lines(rows.drop_first(), widths)
    }
}

/// The whole rendered table: the header line and the data lines, or the
/// informational line when there is nothing to show.
pub open spec fn spec_render_table(headers: Seq<Seq<char>>, rows: Seq<Seq<Seq<char>>>) -> Seq<
    char,
> {
    if rows.len() == 0 {
        "No data to display.\n"@
    } else {
        let widths = spec_col_widths(headers, rows);
        spec_row_line(headers, widths) + seq!['\n'] + spec_table_lines(rows, widths)
    }
}

pub proof fn lemma_table_lines_append(
    a: Seq<Seq<Seq<char>>>,
    b: Seq<Seq<Seq<char>>>,
    widths: Seq<int>,
)
    ensures
        spec_table_lines(a + b, widths) == spec_table_lines(a, widths) + spec_table_lines(
            b,
            widths,
        ),
    decreases a.len(),
{
    if a.len() == 0 {
        assert(a + b =~= b);
        assert(spec_table_lines(a, widths) + spec_table_lines(b, widths) =~= spec_table_lines(
            b,
            widths,
        ));
    } else {
        assert((a + b).drop_first() =~= a.drop_first() + b);
        assert((a + b)[0] == a[0]);
        lemma_table_lines_append(a.drop_first(), b, widths);
        assert(spec_table_lines(a + b, widths) =~= spec_table_lines(a, widths) + spec_table_lines(
            b,
            widths,
        ));
    }
}

/// Pads `s` with spaces on the right to width `w`.
fn pad_to(s: &str, w: usize) -> (r: String)
    ensures
        r@ == spec_pad(s@, w as int),
{
    let len = s.unicode_len();
    let mut out = s.to_owned();
    if len >= w {
        return out;
    }
    proof {
        reveal_strlit(" ");
        assert(" "@ =~= seq![' ']);
        assert(out@ =~= s@ + spec_spaces(0));
    }
    let mut k: usize = len;
    while k < w
        invariant
            len == s@.len(),
            len <= k <= w,
            out@ == s@ + spec_spaces((k - len) as nat),
            " "@ == seq![' '],
        decreases w - k,
    {
        out.append(" ");
        proof {
            assert(out@ =~= s@ + spec_spaces((k + 1 - len) as nat));
        }
        k += 1;
    }
    out
}

/// The widths the columns of this table need.
fn col_widths(headers: &Vec<String>, rows: &Vec<Vec<String>>) -> (r: Vec<usize>)
    ensures
        r@.len() == headers.deep_view().len(),
        forall|i: int|
            0 <= i < r@.len() ==> r@[i] as int == spec_col_widths(
                headers.deep_view(),
                rows.deep_view(),
            )[i],
{
    let hn = headers.len();
    let rn = rows.len();
    let mut widths: Vec<usize> = Vec::new();
    let mut i: usize = 0;
    while i < hn
        invariant
            hn == headers@.len(),
            rn == rows@.len(),
            i <= hn,
            widths@.len() == i,
            forall|k: int|
                0 <= k < i ==> widths@[k] as int == spec_col_widths(
                    headers.deep_view(),
                    rows.deep_view(),
                )[k],
        decreases hn - i,
    {
        let ghost rdv = rows.deep_view();
        let mut w = headers[i].unicode_len();
        let mut ri: usize = 0;
        proof {
            assert(rdv.skip(0) =~= rdv);
        }
        while ri < rn
            invariant
                rn == rows@.len(),
                ri <= rn,
                rdv == rows.deep_view(),
                i < headers@.len(),
                spec_col_width_rows(rdv, i as int, headers.deep_view()[i as int].len() as int)
                    == spec_col_width_rows(rdv.skip(ri as int), i as int, w as int),
            decreases rn - ri,
        {
            proof {
                assert(rdv.skip(ri as int)[0] == rdv[ri as int]);
                assert(rdv.skip(ri as int).drop_first() =~= rdv.skip(ri as int + 1));
            }
            let row = &rows[ri];
            if i < row.len() {
                let l = row[i].unicode_len();
                proof {
                    assert(rdv[ri as int][i as int] == rows@[ri as int]@[i as int]@);
                }
                if l > w {
                    w = l;
                }
            } else {
                proof {
                    assert(rdv[ri as int].len() == rows@[ri as int]@.len());
                }
            }
            ri += 1;
        }
        proof {
            assert(rdv.skip(rn as int) =~= Seq::<Seq<Seq<char>>>::empty());
        }
        widths.push(w);
        i += 1;
    }
    widths
}

/// Renders one line of the table.
fn build_line(cells: &Vec<String>, widths: &Vec<usize>) -> (r: String)
    requires
        cells@.len() <= widths@.len(),
    ensures
        r@ == spec_row_line(
            cells.deep_view(),
            widths@.map_values(|w: usize| w as int),
        ),
{
    let ghost wv = widths@.map_values(|w: usize| w as int);
    let n = cells.len();
    let mut padded: Vec<String> = Vec::new();
    let mut i: usize = 0;
    while i < n
        invariant
            n == cells@.len(),
            n <= widths@.len(),
            i <= n,
            wv == widths@.map_values(|w: usize| w as int),
            padded@.len() == i,
            forall|k: int|
                0 <= k < i ==> padded.deep_view()[k] == spec_pad(cells.deep_view()[k], wv[k]),
        decreases n - i,
    {
        let ghost prevv = padded@;
        let ghost prevdv = padded.deep_view();
        padded.push(pad_to(cells[i].as_str(), widths[i]));
        proof {
            assert(cells.deep_view()[i as int] == cells@[i as int]@);
            assert(wv[i as int] == widths@[i as int] as int);
            assert forall|k: int| 0 <= k < i + 1 implies padded.deep_view()[k] == spec_pad(
                cells.deep_view()[k],
                wv[k],
            ) by {
                assert(padded.deep_view()[k] == padded@[k]@);
                if k < i {
                    assert(padded@[k] == prevv[k]);
                    assert(prevdv[k] == prevv[k]@);
                }
            }
        }
        i += 1;
    }
    let line = join_strings(&padded, "  ");
    proof {
        assert(padded.deep_view() =~= Seq::new(
            cells.deep_view().len(),
            |k: int| spec_pad(cells.deep_view()[k], wv[k]),
        ));
    }
    line
}

/// Renders the table: a header line and one line per row, or the
/// informational line when there are no rows.
pub fn render_table(headers: &Vec<String>, rows: &Vec<Vec<String>>) -> (r: String)
    requires
        forall|k: int|
            0 <= k < rows@.len() ==> #[trigger] rows.deep_view()[k].len()
                == headers.deep_view().len(),
    ensures
        r@ == spec_render_table(headers.deep_view(), rows.deep_view()),
{
    if rows.len() == 0 {
        return "No data to display.\n".to_owned();
    }
    let ghost hdv = headers.deep_view();
    let ghost rdv = rows.deep_view();
    let widths = col_widths(headers, rows);
    let ghost wv = widths@.map_values(|w: usize| w as int);
    proof {
        assert(wv =~= spec_col_widths(hdv, rdv));
        reveal_strlit("\n");
        assert("\n"@ =~= seq!['\n']);
    }
    let mut out = build_line(headers, &widths);
    out.append("\n");
    let rn = rows.len();
    let mut ri: usize = 0;
    proof {
        assert(rdv.take(0) =~= Seq::<Seq<Seq<char>>>::empty());
        assert(out@ =~= spec_row_line(hdv, wv) + seq!['\n'] + spec_table_lines(rdv.take(0), wv));
    }
    while ri < rn
        invariant
            rn == rows@.len(),
            ri <= rn,
            hdv == headers.deep_view(),
            rdv == rows.deep_view(),
            wv == widths@.map_values(|w: usize| w as int),
            widths@.len() == hdv.len(),
            forall|k: int| 0 <= k < rn ==> #[trigger] rdv[k].len() == hdv.len(),
            "\n"@ == seq!['\n'],
            out@ == spec_row_line(hdv, wv) + seq!['\n'] + spec_table_lines(rdv.take(ri as int), wv),
        decreases rn - ri,
    {
        proof {
            assert(rdv[ri as int] == rows@[ri as int].deep_view());
            assert(rows@[ri as int].deep_view().len() == rows@[ri as int]@.len());
        }
        let line = build_line(&rows[ri], &widths);
        out.append(line.as_str());
        out.append("\n");
        proof {
            assert(rdv.take(ri as int + 1) =~= rdv.take(ri as int) + seq![rdv[ri as int]]);
            lemma_table_lines_append(rdv.take(ri as int), seq![rdv[ri as int]], wv);
            assert(seq![rdv[ri as int]].drop_first() =~= Seq::<Seq<Seq<char>>>::empty());
            assert(spec_table_lines(Seq::<Seq<Seq<char>>>::empty(), wv) =~= Seq::<char>::empty());
            assert(spec_table_lines(seq![rdv[ri as int]], wv) =~= spec_row_line(rdv[ri as int], wv)
                + seq!['\n']);
            assert(rdv[ri as int] == rows@[ri as int].deep_view());
            assert(out@ =~= spec_row_line(hdv, wv) + seq!['\n'] + spec_table_lines(
                rdv.take(ri as int + 1),
                wv,
            ));
        }
        ri += 1;
    }
    proof {
        assert(rdv.take(rn as int) =~= rdv);
    }
    out
}

} // verus!
