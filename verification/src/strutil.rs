//! Verified helpers over strings: equality, ASCII lowercasing, the
//! clear-field sentinel, trimming, comma splitting and joining.

use vstd::prelude::*;
use vstd::string::StrSliceExecFns;

verus! {

/// Character-for-character string equality.
pub fn str_eq(a: &str, b: &str) -> (r: bool)
    ensures
        r == (a@ == b@),
{
    let alen = a.unicode_len();
    let blen = b.unicode_len();
    if alen != blen {
        return false;
    }
    let mut i: usize = 0;
    while i < alen
        invariant
            alen == a@.len(),
            blen == b@.len(),
            alen == blen,
            i <= alen,
            forall|j: int| 0 <= j < i ==> a@[j] == b@[j],
        decreases alen - i,
    {
        if a.get_char(i) != b.get_char(i) {
            return false;
        }
        i += 1;
    }
    proof {
        assert(a@ =~= b@);
    }
    true
}

/// ASCII lowercasing of one character; everything else is untouched.
pub open spec fn to_lower(c: char) -> char {
    if 'A' <= c && c <= 'Z' {
        ((c as u8) + 32) as char
    } else {
        c
    }
}

/// The view of a string with every ASCII letter lowercased.
pub open spec fn lower_seq(s: Seq<char>) -> Seq<char> {
    s.map_values(|c: char| to_lower(c))
}

fn to_lower_exec(c: char) -> (r: char)
    ensures
        r == to_lower(c),
{
    if 'A' <= c && c <= 'Z' {
        ((c as u8) + 32) as char
    } else {
        c
    }
}

/// Does `s`, lowercased ASCII-wise, read exactly as `t`?
pub fn eq_ignore_ascii_case(s: &str, t: &str) -> (r: bool)
    ensures
        r == (lower_seq(s@) == t@),
{
    let slen = s.unicode_len();
    let tlen = t.unicode_len();
    if slen != tlen {
        proof {
            assert(lower_seq(s@).len() == s@.len());
        }
        return false;
    }
    let mut i: usize = 0;
    while i < slen
        invariant
            slen == s@.len(),
            tlen == t@.len(),
            slen == tlen,
            i <= slen,
            forall|j: int| 0 <= j < i ==> lower_seq(s@)[j] == t@[j],
        decreases slen - i,
    {
        let c = to_lower_exec(s.get_char(i));
        if c != t.get_char(i) {
            proof {
                assert(lower_seq(s@)[i as int] == to_lower(s@[i as int]));
            }
            return false;
        }
        i += 1;
    }
    proof {
        assert(lower_seq(s@) =~= t@);
    }
    true
}

/// A user-supplied token that means "clear this field": the literal words
/// `none` or `null` in any ASCII case mix.
pub open spec fn is_clear_sentinel(s: Seq<char>) -> bool {
    lower_seq(s) == "none"@ || lower_seq(s) == "null"@
}

/// Recognizes the clear-field sentinel.
pub fn is_clear_token(s: &str) -> (r: bool)
    ensures
        r == is_clear_sentinel(s@),
{
    eq_ignore_ascii_case(s, "none") || eq_ignore_ascii_case(s, "null")
}

/// ASCII whitespace.
pub open spec fn spec_is_space(c: char) -> bool {
    c == ' ' || c == '\t' || c == '\n' || c == '\r'
}

/// `s` without its leading whitespace.
pub open spec fn spec_trim_start(s: Seq<char>) -> Seq<char>
    decreases s.len(),
{
    if s.len() > 0 && spec_is_space(s[0]) {
        spec_trim_start(s.drop_first())
    } else {
        s
    }
}

/// `s` without its trailing whitespace.
pub open spec fn spec_trim_end(s: Seq<char>) -> Seq<char>
    decreases s.len(),
{
    if s.len() > 0 && spec_is_space(s.last()) {
        spec_trim_end(s.drop_last())
    } else {
        s
    }
}

/// `s` without leading and trailing whitespace.
pub open spec fn spec_trim(s: Seq<char>) -> Seq<char> {
    spec_trim_end(spec_trim_start(s))
}

fn is_space_exec(c: char) -> (r: bool)
    ensures
        r == spec_is_space(c),
{
    c == ' ' || c == '\t' || c == '\n' || c == '\r'
}

/// The slice of `s` with surrounding whitespace removed.
pub fn trim_str(s: &str) -> (r: &str)
    ensures
        r@ == spec_trim(s@),
{
    let len = s.unicode_len();
    proof {
        assert(s@.skip(0) =~= s@);
    }
    let mut lo: usize = 0;
    while lo < len && is_space_exec(s.get_char(lo))
        invariant
            len == s@.len(),
            lo <= len,
            spec_trim_start(s@) == spec_trim_start(s@.skip(lo as int)),
        decreases len - lo,
    {
        proof {
            assert(s@.skip(lo as int)[0] == s@[lo as int]);
            assert(s@.skip(lo as int).drop_first() =~= s@.skip(lo as int + 1));
        }
        lo += 1;
    }
    proof {
        if lo < len {
            assert(s@.skip(lo as int)[0] == s@[lo as int]);
        }
        assert(spec_trim_start(s@) == s@.skip(lo as int));
    }
    let ghost t = s@.skip(lo as int);
    let mut hi: usize = len;
    proof {
        assert(t.take(len - lo as int) =~= t);
    }
    while hi > lo && is_space_exec(s.get_char(hi - 1))
        invariant
            len == s@.len(),
            lo <= hi <= len,
            t == s@.skip(lo as int),
            spec_trim_end(t) == spec_trim_end(t.take(hi - lo as int)),
        decreases hi,
    {
        proof {
            assert(t.take(hi - lo as int).last() == s@[hi - 1]);
            assert(t.take(hi - lo as int).drop_last() =~= t.take(hi - 1 - lo as int));
        }
        hi -= 1;
    }
    proof {
        if hi > lo {
            assert(t.take(hi - lo as int).last() == s@[hi as int - 1]);
        }
        assert(spec_trim_end(t) == t.take(hi - lo as int));
    }
    let r = s.substring_char(lo, hi);
    proof {
        assert(r@ =~= t.take(hi - lo as int));
    }
    r
}

/// The pieces of `s` between commas, in order.  An empty string has one
/// empty piece, and every comma opens a new piece.
pub open spec fn spec_split_commas(s: Seq<char>) -> Seq<Seq<char>>
    decreases s.len(),
{
    if s.len() == 0 {
        seq![Seq::<char>::empty()]
    } else {
        let rest = spec_split_commas(s.drop_last());
        if s.last() == ',' {
            rest.push(Seq::<char>::empty())
        } else {
            rest.update(rest.len() - 1, rest.last().push(s.last()))
        }
    }
}

pub proof fn lemma_split_commas_nonempty(s: Seq<char>)
    ensures
        spec_split_commas(s).len() >= 1,
    decreases s.len(),
{
    if s.len() > 0 {
        lemma_split_commas_nonempty(s.drop_last());
    }
}

/// Each comma piece trimmed, the blank ones dropped.
pub open spec fn spec_clean_pieces(pieces: Seq<Seq<char>>) -> Seq<Seq<char>>
    decreases pieces.len(),
{
    if pieces.len() == 0 {
        Seq::empty()
    } else {
        let t = spec_trim(pieces[0]);
        (if t.len() > 0 {
            seq![t]
        } else {
            Seq::<Seq<char>>::empty()
        }) + spec_clean_pieces(pieces.drop_first())
    }
}

pub proof fn lemma_clean_pieces_append(a: Seq<Seq<char>>, b: Seq<Seq<char>>)
    ensures
        spec_clean_pieces(a + b) == spec_clean_pieces(a) + spec_clean_pieces(b),
    decreases a.len(),
{
    if a.len() == 0 {
        assert(a + b =~= b);
        assert(spec_clean_pieces(a) + spec_clean_pieces(b) =~= spec_clean_pieces(b));
    } else {
        assert((a + b).drop_first() =~= a.drop_first() + b);
        assert((a + b)[0] == a[0]);
        lemma_clean_pieces_append(a.drop_first(), b);
        assert(spec_clean_pieces(a + b) =~= spec_clean_pieces(a) + spec_clean_pieces(b));
    }
}

/// The identifiers named by a comma-separated list: pieces trimmed of
/// whitespace, blanks dropped.
pub open spec fn spec_parse_list(s: Seq<char>) -> Seq<Seq<char>> {
    spec_clean_pieces(spec_split_commas(s))
}

/// Splits `s` at every comma, keeping empty pieces.
fn split_commas(s: &str) -> (r: Vec<String>)
    ensures
        r.deep_view() == spec_split_commas(s@),
{
    let len = s.unicode_len();
    let mut pieces: Vec<String> = Vec::new();
    let mut start: usize = 0;
    let mut i: usize = 0;
    proof {
        assert(s@.take(0) =~= Seq::<char>::empty());
        assert(s@.subrange(0, 0) =~= Seq::<char>::empty());
        assert(pieces.deep_view().push(s@.subrange(0, 0)) =~= spec_split_commas(s@.take(0)));
    }
    while i < len
        invariant
            len == s@.len(),
            start <= i <= len,
            pieces.deep_view().push(s@.subrange(start as int, i as int))
                == spec_split_commas(s@.take(i as int)),
        decreases len - i,
    {
        let ghost rest = spec_split_commas(s@.take(i as int));
        proof {
            lemma_split_commas_nonempty(s@.take(i as int));
            assert(s@.take(i as int + 1).drop_last() =~= s@.take(i as int));
            assert(s@.take(i as int + 1).last() == s@[i as int]);
            assert(rest.last() == s@.subrange(start as int, i as int));
        }
        let c = s.get_char(i);
        if c == ',' {
            let piece = s.substring_char(start, i);
            pieces.push(piece.to_owned());
            start = i + 1;
            proof {
                assert(s@.subrange(start as int, i as int + 1) =~= Seq::<char>::empty());
                assert(pieces.deep_view().push(s@.subrange(start as int, i as int + 1))
                    =~= spec_split_commas(s@.take(i as int + 1)));
            }
        } else {
            proof {
                assert(s@.subrange(start as int, i as int).push(s@[i as int])
                    =~= s@.subrange(start as int, i as int + 1));
                assert(pieces.deep_view().push(s@.subrange(start as int, i as int + 1))
                    =~= spec_split_commas(s@.take(i as int + 1)));
            }
        }
        i += 1;
    }
    let last_piece = s.substring_char(start, len);
    pieces.push(last_piece.to_owned());
    proof {
        assert(s@.take(len as int) =~= s@);
        assert(pieces.deep_view() =~= spec_split_commas(s@));
    }
    pieces
}

/// Parses a comma-separated list of identifiers: each piece trimmed, blank
/// pieces dropped.
pub fn parse_id_list(s: &str) -> (r: Vec<String>)
    ensures
        r.deep_view() == spec_parse_list(s@),
{
    let pieces = split_commas(s);
    let mut out: Vec<String> = Vec::new();
    let n = pieces.len();
    let mut i: usize = 0;
    proof {
        assert(pieces.deep_view().take(0) =~= Seq::<Seq<char>>::empty());
    }
    while i < n
        invariant
            n == pieces@.len(),
            i <= n,
            pieces.deep_view() == spec_split_commas(s@),
            out.deep_view() == spec_clean_pieces(pieces.deep_view().take(i as int)),
        decreases n - i,
    {
        let t = trim_str(pieces[i].as_str());
        let ghost prev = out.deep_view();
        proof {
            let dv = pieces.deep_view();
            assert(dv.take(i as int + 1) =~= dv.take(i as int) + seq![dv[i as int]]);
            lemma_clean_pieces_append(dv.take(i as int), seq![dv[i as int]]);
            assert(seq![dv[i as int]].drop_first() =~= Seq::<Seq<char>>::empty());
            assert(spec_clean_pieces(Seq::<Seq<char>>::empty()) =~= Seq::<Seq<char>>::empty());
            assert(dv[i as int] == pieces@[i as int]@);
        }
        if !t.is_empty() {
            out.push(t.to_owned());
            proof {
                let dv = pieces.deep_view();
                assert(out.deep_view() =~= prev.push(spec_trim(dv[i as int])));
                assert(spec_clean_pieces(seq![dv[i as int]])
                    =~= seq![spec_trim(dv[i as int])]);
                assert(out.deep_view() =~= spec_clean_pieces(dv.take(i as int + 1)));
            }
        } else {
            proof {
                let dv = pieces.deep_view();
                assert(spec_clean_pieces(seq![dv[i as int]]) =~= Seq::<Seq<char>>::empty());
                assert(out.deep_view() =~= spec_clean_pieces(dv.take(i as int + 1)));
            }
        }
        i += 1;
    }
    proof {
        assert(pieces.deep_view().take(n as int) =~= pieces.deep_view());
    }
    out
}

/// `items` joined by `sep`.
pub open spec fn spec_join(items: Seq<Seq<char>>, sep: Seq<char>) -> Seq<char>
    decreases items.len(),
{
    if items.len() == 0 {
        Seq::empty()
    } else if items.len() == 1 {
        items[0]
    } else {
        items[0] + sep + spec_join(items.drop_first(), sep)
    }
}

pub proof fn lemma_join_append(a: Seq<Seq<char>>, b: Seq<Seq<char>>, sep: Seq<char>)
    requires
        a.len() > 0,
        b.len() > 0,
    ensures
        spec_join(a + b, sep) == spec_join(a, sep) + sep + spec_join(b, sep),
    decreases a.len(),
{
    assert((a + b)[0] == a[0]);
    if a.len() == 1 {
        assert((a + b).drop_first() =~= b);
        assert((a + b).len() >= 2);
        assert(spec_join(a + b, sep) == a[0] + sep + spec_join(b, sep));
    } else {
        assert((a + b).drop_first() =~= a.drop_first() + b);
        lemma_join_append(a.drop_first(), b, sep);
        assert(spec_join(a + b, sep) =~= spec_join(a, sep) + sep + spec_join(b, sep));
    }
}

/// Joins the items with `sep` between each pair.
pub fn join_strings(items: &Vec<String>, sep: &str) -> (r: String)
    ensures
        r@ == spec_join(items.deep_view(), sep@),
{
    let mut r = String::new();
    let n = items.len();
    let mut i: usize = 0;
    proof {
        assert(items.deep_view().take(0) =~= Seq::<Seq<char>>::empty());
    }
    while i < n
        invariant
            n == items@.len(),
            i <= n,
            r@ == spec_join(items.deep_view().take(i as int), sep@),
        decreases n - i,
    {
        if i > 0 {
            r.append(sep);
        }
        r.append(items[i].as_str());
        proof {
            let dv = items.deep_view();
            assert(dv.take(i as int + 1) =~= dv.take(i as int) + seq![dv[i as int]]);
            assert(dv[i as int] == items@[i as int]@);
            if i > 0 {
                lemma_join_append(dv.take(i as int), seq![dv[i as int]], sep@);
            }
            assert(spec_join(seq![dv[i as int]], sep@) == dv[i as int]);
        }
        i += 1;
    }
    proof {
        assert(items.deep_view().take(n as int) =~= items.deep_view());
    }
    r
}

} // verus!
