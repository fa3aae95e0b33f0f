use vstd::prelude::*;
use vstd::string::*;

use crate::text::seq_join;

verus! {

/// Whether `c` has the Unicode `White_Space` property, which is what
/// `char::is_whitespace` answers: tab to carriage return, space, next line,
/// no-break space, Ogham space mark, the spaces from en quad to hair space,
/// line and paragraph separators, narrow no-break space, medium mathematical
/// space and ideographic space.
pub open spec fn is_ws(c: char) -> bool {
    let u = c as u32;
    ||| 0x9 <= u <= 0xd
    ||| u == 0x20
    ||| u == 0x85
    ||| u == 0xa0
    ||| u == 0x1680
    ||| 0x2000 <= u <= 0x200a
    ||| u == 0x2028
    ||| u == 0x2029
    ||| u == 0x202f
    ||| u == 0x205f
    ||| u == 0x3000
}

/// Whether `c` is whitespace, as `char::is_whitespace` tells.
pub fn char_is_whitespace(c: char) -> (res: bool)
    ensures
        res == is_ws(c),
{
    let u = c as u32;
    (0x9 <= u && u <= 0xd) || u == 0x20 || u == 0x85 || u == 0xa0 || u == 0x1680 || (0x2000 <= u
        && u <= 0x200a) || u == 0x2028 || u == 0x2029 || u == 0x202f || u == 0x205f || u == 0x3000
}

/// `s` without its leading whitespace.
pub open spec fn trim_start(s: Seq<char>) -> Seq<char>
    decreases s.len(),
{
    if s.len() > 0 && is_ws(s[0]) {
        trim_start(s.drop_first())
    } else {
        s
    }
}

/// `s` without its trailing whitespace.
pub open spec fn trim_end(s: Seq<char>) -> Seq<char>
    decreases s.len(),
{
    if s.len() > 0 && is_ws(s.last()) {
        trim_end(s.drop_last())
    } else {
        s
    }
}

/// `s` without leading and trailing whitespace, as `str::trim` gives it.
pub open spec fn trimmed(s: Seq<char>) -> Seq<char> {
    trim_end(trim_start(s))
}

/// The words of `s`: its maximal runs of non-whitespace characters, in
/// order, as `str::split_whitespace` yields them.
pub open spec fn words(s: Seq<char>) -> Seq<Seq<char>>
    decreases s.len(),
{
    if s.len() == 0 {
        Seq::empty()
    } else {
        let w = words(s.drop_last());
        let c = s.last();
        if is_ws(c) {
            w
        } else if s.len() >= 2 && !is_ws(s[s.len() - 2]) && w.len() > 0 {
            w.update(w.len() - 1, w.last().push(c))
        } else {
            w.push(seq![c])
        }
    }
}

proof fn lemma_trim_start_step(s: Seq<char>, i: int)
    requires
        0 <= i < s.len(),
        is_ws(s[i]),
    ensures
        trim_start(s.subrange(i, s.len() as int)) == trim_start(s.subrange(i + 1, s.len() as int)),
{
    assert(s.subrange(i, s.len() as int).drop_first() =~= s.subrange(i + 1, s.len() as int));
}

proof fn lemma_trim_end_step(s: Seq<char>, a: int, j: int)
    requires
        0 <= a < j <= s.len(),
        is_ws(s[j - 1]),
    ensures
        trim_end(s.subrange(a, j)) == trim_end(s.subrange(a, j - 1)),
{
    assert(s.subrange(a, j).drop_last() =~= s.subrange(a, j - 1));
}

/// Removes leading and trailing whitespace, as `str::trim` does.
pub fn trim_whitespace(s: &str) -> (res: String)
    ensures
        res@ == trimmed(s@),
{
    let n = s.unicode_len();
    let mut a: usize = 0;
    proof {
        assert(s@.subrange(0, n as int) =~= s@);
    }
    while a < n && char_is_whitespace(s.get_char(a))
        invariant
            n == s@.len(),
            a <= n,
            trim_start(s@) == trim_start(s@.subrange(a as int, n as int)),
        decreases n - a,
    {
        proof {
            lemma_trim_start_step(s@, a as int);
        }
        a = a + 1;
    }
    proof {
        assert(trim_start(s@.subrange(a as int, n as int)) == s@.subrange(a as int, n as int));
    }
    let mut b: usize = n;
    while b > a && char_is_whitespace(s.get_char(b - 1))
        invariant
            n == s@.len(),
            a <= b <= n,
            trim_start(s@) == s@.subrange(a as int, n as int),
            trimmed(s@) == trim_end(s@.subrange(a as int, b as int)),
        decreases b - a,
    {
        proof {
            lemma_trim_end_step(s@, a as int, b as int);
        }
        b = b - 1;
    }
    let t = s.substring_char(a, b);
    t.to_owned()
}

proof fn lemma_join_extend_last(w: Seq<Seq<char>>, sep: Seq<char>, c: char)
    requires
        w.len() > 0,
    ensures
        seq_join(w.update(w.len() - 1, w.last().push(c)), sep) == seq_join(w, sep).push(c),
{
    let u = w.update(w.len() - 1, w.last().push(c));
    if w.len() == 1 {
        assert(seq_join(u, sep) == u[0]);
    } else {
        assert(u.drop_last() =~= w.drop_last());
        assert(seq_join(u, sep) =~= seq_join(w, sep).push(c));
    }
}

proof fn lemma_join_push(w: Seq<Seq<char>>, sep: Seq<char>, x: Seq<char>)
    ensures
        seq_join(w.push(x), sep) == if w.len() == 0 {
            x
        } else {
            seq_join(w, sep) + sep + x
        },
{
    assert(w.push(x).drop_last() =~= w);
}

/// The words of `s` joined with `sep`.
pub fn join_words(s: &str, sep: &str) -> (res: String)
    ensures
        res@ == seq_join(words(s@), sep@),
{
    let n = s.unicode_len();
    let mut out = String::new();
    let mut i: usize = 0;
    let mut prev_ws = true;
    while i < n
        invariant
            n == s@.len(),
            i <= n,
            out@ == seq_join(words(s@.take(i as int)), sep@),
            prev_ws == (i == 0 || is_ws(s@[i - 1])),
        decreases n - i,
    {
        let c = s.get_char(i);
        let ws = char_is_whitespace(c);
        let ghost pre = s@.take(i as int);
        let ghost cur = s@.take(i + 1);
        proof {
            assert(cur.drop_last() =~= pre);
            assert(cur.last() == c);
        }
        if !ws {
            let piece = s.substring_char(i, i + 1);
            proof {
                assert(piece@ =~= seq![c]);
            }
            if prev_ws {
                proof {
                    assert(!(cur.len() >= 2 && !is_ws(cur[cur.len() - 2])));
                    assert(words(cur) == words(pre).push(seq![c]));
                    lemma_join_push(words(pre), sep@, seq![c]);
                }
                proof {
                    lemma_words_are_words(pre);
                    if words(pre).len() > 0 {
                        lemma_words_nonempty_join(words(pre), sep@);
                    }
                }
                if out.as_str().unicode_len() > 0 {
                    out.append(sep);
                }
                out.append(piece);
            } else {
                proof {
                    assert(pre.len() > 0 && !is_ws(pre.last()));
                    assert(words(pre).len() > 0);
                    assert(cur[cur.len() - 2] == s@[i - 1]);
                    lemma_join_extend_last(words(pre), sep@, c);
                }
                out.append(piece);
            }
        }
        prev_ws = ws;
        i = i + 1;
    }
    proof {
        assert(s@.take(n as int) =~= s@);
    }
    out
}

/// Joining one or more non-empty pieces gives a non-empty text.
pub(crate) proof fn lemma_words_nonempty_join(w: Seq<Seq<char>>, sep: Seq<char>)
    requires
        w.len() > 0,
        forall|k: int| 0 <= k < w.len() ==> w[k].len() > 0,
    ensures
        seq_join(w, sep).len() > 0,
    decreases w.len(),
{
    if w.len() > 1 {
        lemma_words_nonempty_join(w.drop_last(), sep);
    }
}

/// Every word is non-empty and holds no whitespace.
pub proof fn lemma_words_are_words(s: Seq<char>)
    ensures
        forall|k: int| 0 <= k < words(s).len() ==> words(s)[k].len() > 0,
        forall|k: int, j: int|
            0 <= k < words(s).len() && 0 <= j < words(s)[k].len() ==> !is_ws(
                #[trigger] words(s)[k][j],
            ),
    decreases s.len(),
{
    if s.len() > 0 {
        lemma_words_are_words(s.drop_last());
        let w = words(s.drop_last());
        let c = s.last();
        if !is_ws(c) && s.len() >= 2 && !is_ws(s[s.len() - 2]) && w.len() > 0 {
            let u = w.update(w.len() - 1, w.last().push(c));
            assert forall|k: int, j: int|
                0 <= k < u.len() && 0 <= j < u[k].len() implies !is_ws(#[trigger] u[k][j]) by {
                if k == w.len() - 1 && j == w.last().len() {
                } else if k == w.len() - 1 {
                    assert(u[k][j] == w[k][j]);
                } else {
                    assert(u[k] == w[k]);
                }
            }
        } else if !is_ws(c) {
            let u = w.push(seq![c]);
            assert forall|k: int, j: int|
                0 <= k < u.len() && 0 <= j < u[k].len() implies !is_ws(#[trigger] u[k][j]) by {
                if k < w.len() {
                    assert(u[k] == w[k]);
                }
            }
        }
    }
}

/// A text has no words exactly when it is all whitespace.
pub proof fn lemma_no_words_iff_blank(s: Seq<char>)
    ensures
        words(s).len() == 0 <==> forall|i: int| 0 <= i < s.len() ==> is_ws(#[trigger] s[i]),
    decreases s.len(),
{
    if s.len() > 0 {
        lemma_no_words_iff_blank(s.drop_last());
        let p = s.drop_last();
        if words(s).len() == 0 {
            assert(is_ws(s.last()));
            assert forall|i: int| 0 <= i < s.len() implies is_ws(#[trigger] s[i]) by {
                if i < s.len() - 1 {
                    assert(p[i] == s[i]);
                }
            }
        } else if forall|i: int| 0 <= i < s.len() ==> is_ws(#[trigger] s[i]) {
            assert(is_ws(s[s.len() - 1]));
            assert forall|i: int| 0 <= i < p.len() implies is_ws(#[trigger] p[i]) by {
                assert(s[i] == p[i]);
            }
        }
    }
}

proof fn lemma_words_drop_leading_ws(s: Seq<char>)
    requires
        s.len() > 0,
        is_ws(s[0]),
    ensures
        words(s) == words(s.drop_first()),
    decreases s.len(),
{
    let r = s.drop_first();
    if r.len() == 0 {
        assert(s.drop_last() =~= Seq::<char>::empty());
        assert(words(s) == words(s.drop_last()));
    } else {
        let p = s.drop_last();
        assert(p.drop_first() =~= r.drop_last());
        assert(p[0] == s[0]);
        lemma_words_drop_leading_ws(p);
        assert(words(p) == words(r.drop_last()));
        assert(r.last() == s.last());
        if r.len() >= 2 {
            assert(r[r.len() - 2] == s[s.len() - 2]);
        } else {
            assert(s.len() == 2);
            assert(s[s.len() - 2] == s[0]);
        }
    }
}

proof fn lemma_words_trim_start(s: Seq<char>)
    ensures
        words(trim_start(s)) == words(s),
    decreases s.len(),
{
    if s.len() > 0 && is_ws(s[0]) {
        lemma_words_drop_leading_ws(s);
        lemma_words_trim_start(s.drop_first());
    }
}

proof fn lemma_words_trim_end(s: Seq<char>)
    ensures
        words(trim_end(s)) == words(s),
    decreases s.len(),
{
    if s.len() > 0 && is_ws(s.last()) {
        lemma_words_trim_end(s.drop_last());
    }
}

/// Trimming a text does not change its words.
pub proof fn lemma_words_of_trimmed(s: Seq<char>)
    ensures
        words(trimmed(s)) == words(s),
{
    lemma_words_trim_end(trim_start(s));
    lemma_words_trim_start(s);
}

} // verus!
