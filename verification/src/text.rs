//! Verified text utilities: equality, substring search, whitespace
//! tokenization, line splitting, trimming and quote stripping.
//!
//! All specifications speak of `Seq<char>` views. Whitespace means the
//! four ASCII separators (space, tab, carriage return, line feed), which
//! is all the identification file and tool output ever contain.

use vstd::prelude::*;

verus! {

/// The whitespace characters recognised by every splitting function here.
pub open spec fn is_space(c: char) -> bool {
    c == ' ' || c == '\t' || c == '\r' || c == '\n'
}

/// Executable twin of [`is_space`].
pub fn is_space_char(c: char) -> (b: bool)
    ensures
        b == is_space(c),
{
    c == ' ' || c == '\t' || c == '\r' || c == '\n'
}

/// Whether the character sequences `a` and `b` are equal.
pub fn str_eq(a: &str, b: &str) -> (r: bool)
    ensures
        r == (a@ == b@),
{
    let an = a.unicode_len();
    let bn = b.unicode_len();
    if an != bn {
        assert(a@ != b@) by {
            assert(a@.len() != b@.len());
        }
        return false;
    }
    let mut i: usize = 0;
    while i < an
        invariant
            i <= an,
            an == a@.len(),
            an == b@.len(),
            forall|k: int| 0 <= k < i ==> a@[k] == b@[k],
        decreases an - i,
    {
        if a.get_char(i) != b.get_char(i) {
            return false;
        }
        i += 1;
    }
    proof {
        assert(a@ =~= b@);
    }
    true
}

/// Whether `s` holds `p` as a contiguous run starting at index `i`.
pub open spec fn has_sub_at(s: Seq<char>, p: Seq<char>, i: int) -> bool {
    0 <= i && i + p.len() <= s.len() && s.subrange(i, i + p.len() as int) == p
}

/// Whether `s` holds `p` somewhere as a contiguous run.
pub open spec fn contains_sub(s: Seq<char>, p: Seq<char>) -> bool {
    exists|i: int| has_sub_at(s, p, i)
}

/// Whether the string `s` contains the substring `p`.
pub fn contains_str(s: &str, p: &str) -> (r: bool)
    ensures
        r == contains_sub(s@, p@),
{
    let sn = s.unicode_len();
    let pn = p.unicode_len();
    if pn > sn {
        assert(forall|i: int| !has_sub_at(s@, p@, i));
        return false;
    }
    let mut i: usize = 0;
    while i <= sn - pn
        invariant
            pn <= sn,
            sn == s@.len(),
            pn == p@.len(),
            i <= sn - pn + 1,
            forall|k: int| 0 <= k < i ==> !has_sub_at(s@, p@, k),
        decreases sn - pn - i + 1,
    {
        let mut j: usize = 0;
        let mut all_eq = true;
        while j < pn
            invariant
                i + pn <= sn,
                sn == s@.len(),
                pn == p@.len(),
                j <= pn,
                all_eq ==> forall|k: int| 0 <= k < j ==> s@[i + k] == p@[k],
                !all_eq ==> exists|k: int| 0 <= k < pn && s@[i + k] != p@[k],
            decreases pn - j,
        {
            if s.get_char(i + j) != p.get_char(j) {
                all_eq = false;
                j = pn;
            } else {
                j += 1;
            }
        }
        if all_eq {
            proof {
                assert(s@.subrange(i as int, i + pn as int) =~= p@);
                assert(has_sub_at(s@, p@, i as int));
            }
            return true;
        }
        proof {
            let k = choose|k: int| 0 <= k < pn && s@[i + k] != p@[k];
            if has_sub_at(s@, p@, i as int) {
                assert(s@.subrange(i as int, i + pn as int)[k] == s@[i + k]);
            }
        }
        i += 1;
    }
    proof {
        assert(forall|k: int| has_sub_at(s@, p@, k) ==> 0 <= k <= sn - pn);
    }
    false
}

/// First index at or after `i` holding a non-space character, or the end.
pub open spec fn skip_space(s: Seq<char>, i: int) -> int
    decreases s.len() - i,
{
    if i < 0 || i >= s.len() || !is_space(s[i]) {
        i
    } else {
        skip_space(s, i + 1)
    }
}

/// Last bound at or before `j` with no space just before it, scanning left.
pub open spec fn rskip_space(s: Seq<char>, j: int) -> int
    decreases j,
{
    if j <= 0 || j > s.len() || !is_space(s[j - 1]) {
        j
    } else {
        rskip_space(s, j - 1)
    }
}

pub proof fn lemma_rskip_space_bounds(s: Seq<char>, j: int)
    requires
        0 <= j <= s.len(),
    ensures
        0 <= rskip_space(s, j) <= j,
    decreases j,
{
    if !(j <= 0 || !is_space(s[j - 1])) {
        lemma_rskip_space_bounds(s, j - 1);
    }
}

/// `s` with leading and trailing whitespace removed.
pub open spec fn trimmed(s: Seq<char>) -> Seq<char> {
    let a = skip_space(s, 0);
    let b = rskip_space(s, s.len() as int);
    if a <= b {
        s.subrange(a, b)
    } else {
        Seq::empty()
    }
}

/// Returns `s` with leading and trailing whitespace removed.
pub fn trim_str(s: &str) -> (r: String)
    ensures
        r@ == trimmed(s@),
{
    let n = s.unicode_len();
    let mut i: usize = 0;
    while i < n && is_space_char(s.get_char(i))
        invariant
            i <= n,
            n == s@.len(),
            skip_space(s@, 0) == skip_space(s@, i as int),
        decreases n - i,
    {
        i += 1;
    }
    assert(skip_space(s@, 0) == i);
    if i == n {
        proof {
            lemma_rskip_space_bounds(s@, n as int);
            assert(trimmed(s@) =~= Seq::<char>::empty());
        }
        return String::new();
    }
    let mut j: usize = n;
    while j > i && is_space_char(s.get_char(j - 1))
        invariant
            i < n,
            i < j <= n,
            n == s@.len(),
            !is_space(s@[i as int]),
            rskip_space(s@, n as int) == rskip_space(s@, j as int),
        decreases j,
    {
        proof {
            assert(is_space(s@[j - 1]));
            assert(j - 1 != i);
        }
        j -= 1;
    }
    assert(j > i);
    assert(rskip_space(s@, j as int) == j);
    let r = s.substring_char(i, j);
    proof {
        assert(trimmed(s@) =~= s@.subrange(i as int, j as int));
    }
    r.to_owned()
}

/// The sequence of views of a sequence of strings.
pub open spec fn views_of(v: Seq<String>) -> Seq<Seq<char>> {
    v.map_values(|x: String| x@)
}

pub proof fn lemma_views_of_push(v: Seq<String>, x: String)
    ensures
        views_of(v.push(x)) =~= views_of(v).push(x@),
{
}

pub proof fn lemma_views_of_concat(a: Seq<String>, b: Seq<String>)
    ensures
        views_of(a + b) =~= views_of(a) + views_of(b),
{
    assert forall|k: int| 0 <= k < (a + b).len() implies views_of(a + b)[k] == (views_of(a)
        + views_of(b))[k] by {
        if k < a.len() {
            assert((a + b)[k] == a[k]);
        } else {
            assert((a + b)[k] == b[k - a.len()]);
        }
    }
}

/// The whitespace-separated tokens of `s`, scanned left to right with the
/// token built so far in `cur`.
pub open spec fn tokens_acc(s: Seq<char>, i: int, cur: Seq<char>) -> Seq<Seq<char>>
    decreases s.len() - i,
{
    if i < 0 || i >= s.len() {
        if cur.len() > 0 {
            seq![cur]
        } else {
            Seq::empty()
        }
    } else if is_space(s[i]) {
        if cur.len() > 0 {
            seq![cur] + tokens_acc(s, i + 1, Seq::empty())
        } else {
            tokens_acc(s, i + 1, Seq::empty())
        }
    } else {
        tokens_acc(s, i + 1, cur.push(s[i]))
    }
}

/// The whitespace-separated tokens of `s`, in order.
pub open spec fn tokens(s: Seq<char>) -> Seq<Seq<char>> {
    tokens_acc(s, 0, Seq::empty())
}

/// Splits `s` into its whitespace-separated tokens.
pub fn split_ws(s: &str) -> (r: Vec<String>)
    ensures
        views_of(r@) == tokens(s@),
{
    let n = s.unicode_len();
    let mut out: Vec<String> = Vec::new();
    let mut i: usize = 0;
    let mut start: usize = 0;
    let mut in_tok = false;
    while i < n
        invariant
            i <= n,
            n == s@.len(),
            in_tok ==> start < i,
            views_of(out@) + tokens_acc(
                s@,
                i as int,
                if in_tok {
                    s@.subrange(start as int, i as int)
                } else {
                    Seq::empty()
                },
            ) == tokens(s@),
        decreases n - i,
    {
        let ghost cur = if in_tok {
            s@.subrange(start as int, i as int)
        } else {
            Seq::<char>::empty()
        };
        let c = s.get_char(i);
        if is_space_char(c) {
            if in_tok {
                let tok = s.substring_char(start, i);
                let tok_owned = tok.to_owned();
                proof {
                    assert(cur.len() > 0);
                    lemma_views_of_push(out@, tok_owned);
                }
                out.push(tok_owned);
                in_tok = false;
                proof {
                    assert(views_of(out@) + tokens_acc(s@, i + 1, Seq::empty()) =~= tokens(
                        s@,
                    ));
                }
            }
        } else {
            if !in_tok {
                start = i;
                in_tok = true;
                proof {
                    assert(s@.subrange(i as int, i + 1) =~= Seq::<char>::empty().push(
                        s@[i as int],
                    ));
                }
            } else {
                proof {
                    assert(s@.subrange(start as int, i + 1) =~= cur.push(s@[i as int]));
                }
            }
        }
        i += 1;
    }
    if in_tok {
        let tok = s.substring_char(start, n);
        let tok_owned = tok.to_owned();
        proof {
            lemma_views_of_push(out@, tok_owned);
        }
        out.push(tok_owned);
        proof {
            assert(views_of(out@) =~= tokens(s@));
        }
    } else {
        proof {
            assert(views_of(out@) + Seq::<Seq<char>>::empty() =~= views_of(out@));
        }
    }
    out
}

/// Whether some whitespace-separated token of `s` equals `tok`.
pub fn has_ws_token(s: &str, tok: &str) -> (r: bool)
    ensures
        r == tokens(s@).contains(tok@),
{
    let parts = split_ws(s);
    let mut k: usize = 0;
    while k < parts.len()
        invariant
            k <= parts.len(),
            views_of(parts@) == tokens(s@),
            forall|m: int| 0 <= m < k ==> views_of(parts@)[m] != tok@,
        decreases parts.len() - k,
    {
        if str_eq(parts[k].as_str(), tok) {
            assert(views_of(parts@)[k as int] == tok@);
            return true;
        }
        assert(views_of(parts@)[k as int] == parts@[k as int]@);
        k += 1;
    }
    assert(forall|m: int| 0 <= m < tokens(s@).len() ==> tokens(s@)[m] != tok@);
    false
}

/// `l` with one trailing carriage return removed, if present.
pub open spec fn strip_cr(l: Seq<char>) -> Seq<char> {
    if l.len() > 0 && l[l.len() - 1] == '\r' {
        l.drop_last()
    } else {
        l
    }
}

/// The lines of `s`: maximal runs between line feeds, each with one
/// trailing carriage return removed, scanned with the run so far in `cur`.
pub open spec fn lines_acc(s: Seq<char>, i: int, cur: Seq<char>) -> Seq<Seq<char>>
    decreases s.len() - i,
{
    if i < 0 || i >= s.len() {
        if cur.len() > 0 {
            seq![strip_cr(cur)]
        } else {
            Seq::empty()
        }
    } else if s[i] == '\n' {
        seq![strip_cr(cur)] + lines_acc(s, i + 1, Seq::empty())
    } else {
        lines_acc(s, i + 1, cur.push(s[i]))
    }
}

/// The lines of `s`, as `str::lines` yields them.
pub open spec fn line_seqs(s: Seq<char>) -> Seq<Seq<char>> {
    lines_acc(s, 0, Seq::empty())
}

/// Splits `s` into lines at line feeds, dropping one trailing carriage
/// return per line; a final line feed opens no further line.
pub fn split_lines(s: &str) -> (r: Vec<String>)
    ensures
        views_of(r@) == line_seqs(s@),
{
    let n = s.unicode_len();
    let mut out: Vec<String> = Vec::new();
    let mut i: usize = 0;
    let mut start: usize = 0;
    proof {
        assert(s@.subrange(0, 0) =~= Seq::<char>::empty());
        assert(views_of(out@) + lines_acc(s@, 0, s@.subrange(0, 0)) =~= line_seqs(s@));
    }
    while i < n
        invariant
            i <= n,
            start <= i,
            n == s@.len(),
            views_of(out@) + lines_acc(s@, i as int, s@.subrange(start as int, i as int))
                == line_seqs(s@),
        decreases n - i,
    {
        let ghost cur = s@.subrange(start as int, i as int);
        let c = s.get_char(i);
        if c == '\n' {
            let line = if i > start && s.get_char(i - 1) == '\r' {
                let l = s.substring_char(start, i - 1);
                proof {
                    assert(strip_cr(cur) =~= s@.subrange(start as int, i - 1));
                }
                l
            } else {
                proof {
                    assert(strip_cr(cur) =~= cur);
                }
                s.substring_char(start, i)
            };
            let line_owned = line.to_owned();
            proof {
                lemma_views_of_push(out@, line_owned);
            }
            out.push(line_owned);
            start = i + 1;
            proof {
                assert(s@.subrange(i + 1, i + 1) =~= Seq::<char>::empty());
                assert(views_of(out@) + lines_acc(s@, i + 1, Seq::<char>::empty()) =~= line_seqs(
                    s@,
                ));
            }
        } else {
            proof {
                assert(s@.subrange(start as int, i + 1) =~= cur.push(s@[i as int]));
            }
        }
        i += 1;
    }
    if start < n {
        let ghost cur = s@.subrange(start as int, n as int);
        let line = if s.get_char(n - 1) == '\r' {
            let l = s.substring_char(start, n - 1);
            proof {
                assert(strip_cr(cur) =~= s@.subrange(start as int, n - 1));
            }
            l
        } else {
            proof {
                assert(strip_cr(cur) =~= cur);
            }
            s.substring_char(start, n)
        };
        let line_owned = line.to_owned();
        proof {
            lemma_views_of_push(out@, line_owned);
        }
        out.push(line_owned);
        proof {
            assert(views_of(out@) =~= line_seqs(s@));
        }
    } else {
        proof {
            assert(s@.subrange(start as int, n as int) =~= Seq::<char>::empty());
            assert(views_of(out@) + Seq::<Seq<char>>::empty() =~= views_of(out@));
        }
    }
    out
}

/// `s` with one level of matching single or double quotes removed.
pub open spec fn unquoted(s: Seq<char>) -> Seq<char> {
    if s.len() >= 2 && (s[0] == '"' || s[0] == '\'') && s[s.len() - 1] == s[0] {
        s.subrange(1, s.len() - 1)
    } else {
        s
    }
}

/// Strips one level of matching single or double quotes from `s`.
pub fn unquote_str(s: &str) -> (r: String)
    ensures
        r@ == unquoted(s@),
{
    let n = s.unicode_len();
    if n >= 2 {
        let c0 = s.get_char(0);
        let cl = s.get_char(n - 1);
        if (c0 == '"' || c0 == '\'') && cl == c0 {
            return s.substring_char(1, n - 1).to_owned();
        }
    }
    s.to_owned()
}

/// First index at or after `i` holding `c`, or the end of `s`.
pub open spec fn find_char(s: Seq<char>, c: char, i: int) -> int
    decreases s.len() - i,
{
    if i < 0 || i >= s.len() || s[i] == c {
        i
    } else {
        find_char(s, c, i + 1)
    }
}

/// Returns the index of the first occurrence of `c` in `s`, or the length
/// of `s` when `c` does not occur.
pub fn find_char_at(s: &str, c: char) -> (r: usize)
    ensures
        r == find_char(s@, c, 0),
        r <= s@.len(),
{
    let n = s.unicode_len();
    let mut i: usize = 0;
    while i < n && s.get_char(i) != c
        invariant
            i <= n,
            n == s@.len(),
            find_char(s@, c, 0) == find_char(s@, c, i as int),
        decreases n - i,
    {
        i += 1;
    }
    assert(find_char(s@, c, i as int) == i);
    i
}

} // verus!
