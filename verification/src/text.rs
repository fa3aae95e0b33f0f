use vstd::prelude::*;
use vstd::string::*;

verus! {

/// The views of a sequence of strings.
pub open spec fn views(parts: Seq<String>) -> Seq<Seq<char>> {
    parts.map_values(|s: String| s@)
}

/// `parts` joined with `sep` between neighbours, as `[T]::join` does.
pub open spec fn seq_join(parts: Seq<Seq<char>>, sep: Seq<char>) -> Seq<char>
    decreases parts.len(),
{
    if parts.len() == 0 {
        Seq::empty()
    } else if parts.len() == 1 {
        parts[0]
    } else {
        seq_join(parts.drop_last(), sep) + sep + parts.last()
    }
}

/// Joins the strings with `sep` between neighbours.
pub fn join_strings(parts: &Vec<String>, sep: &str) -> (res: String)
    ensures
        res@ == seq_join(views(parts@), sep@),
{
    let mut res = String::new();
    let n = parts.len();
    let mut i: usize = 0;
    while i < n
        invariant
            n == parts@.len(),
            i <= n,
            res@ == seq_join(views(parts@).take(i as int), sep@),
        decreases n - i,
    {
        proof {
            let vs = views(parts@);
            assert(vs.take(i + 1).drop_last() =~= vs.take(i as int));
            assert(vs.take(i + 1).last() == parts@[i as int]@);
        }
        if i > 0 {
            res.append(sep);
        }
        res.append(parts[i].as_str());
        i = i + 1;
    }
    proof {
        assert(views(parts@).take(n as int) =~= views(parts@));
    }
    res
}

/// The decimal digit character for `d < 10`.
pub open spec fn digit_char(d: nat) -> char {
    ((48 + d) as u32) as char
}

/// The decimal representation of `n`, without sign or leading zeros.
pub open spec fn decimal(n: nat) -> Seq<char>
    decreases n,
{
    if n < 10 {
        seq![digit_char(n)]
    } else {
        decimal(n / 10) + seq![digit_char(n % 10)]
    }
}

fn digit_str(d: u64) -> (res: &'static str)
    requires
        d < 10,
    ensures
        res@ == seq![digit_char(d as nat)],
{
    proof {
        reveal_strlit("0");
        reveal_strlit("1");
        reveal_strlit("2");
        reveal_strlit("3");
        reveal_strlit("4");
        reveal_strlit("5");
        reveal_strlit("6");
        reveal_strlit("7");
        reveal_strlit("8");
        reveal_strlit("9");
    }
    let s = if d == 0 {
        "0"
    } else if d == 1 {
        "1"
    } else if d == 2 {
        "2"
    } else if d == 3 {
        "3"
    } else if d == 4 {
        "4"
    } else if d == 5 {
        "5"
    } else if d == 6 {
        "6"
    } else if d == 7 {
        "7"
    } else if d == 8 {
        "8"
    } else {
        "9"
    };
    assert(s@ =~= seq![digit_char(d as nat)]);
    s
}

/// Appends the decimal representation of `n` to `out`.
pub fn push_decimal(out: &mut String, n: u64)
    ensures
        final(out)@ == old(out)@ + decimal(n as nat),
    decreases n,
{
    if n >= 10 {
        push_decimal(out, n / 10);
    }
    let d = digit_str(n % 10);
    out.append(d);
    proof {
        assert(old(out)@ + decimal(n as nat) =~= final(out)@) by {
            if n >= 10 {
                assert(decimal(n as nat) == decimal((n / 10) as nat) + seq![
                    digit_char((n % 10) as nat),
                ]);
            }
        }
    }
}

/// The decimal representation of `n`, as `n.to_string()` writes it.
pub fn decimal_string(n: u64) -> (res: String)
    ensures
        res@ == decimal(n as nat),
{
    let mut s = String::new();
    push_decimal(&mut s, n);
    assert(s@ =~= decimal(n as nat));
    s
}

/// Whether `suffix` ends `s`.
pub open spec fn has_suffix(s: Seq<char>, suffix: Seq<char>) -> bool {
    suffix.len() <= s.len() && s.subrange(s.len() - suffix.len(), s.len() as int) == suffix
}

/// Whether `prefix` starts `s`.
pub open spec fn has_prefix(s: Seq<char>, prefix: Seq<char>) -> bool {
    prefix.len() <= s.len() && s.subrange(0, prefix.len() as int) == prefix
}

/// Whether `s` ends with `suffix`, as `str::ends_with` answers.
pub fn ends_with(s: &str, suffix: &str) -> (res: bool)
    ensures
        res == has_suffix(s@, suffix@),
{
    let n = s.unicode_len();
    let k = suffix.unicode_len();
    if k > n {
        return false;
    }
    let mut i: usize = 0;
    while i < k
        invariant
            n == s@.len(),
            k == suffix@.len(),
            k <= n,
            i <= k,
            forall|j: int| 0 <= j < i ==> s@[n - k + j] == suffix@[j],
        decreases k - i,
    {
        if s.get_char(n - k + i) != suffix.get_char(i) {
            assert(s@.subrange(n - k, n as int)[i as int] != suffix@[i as int]);
            return false;
        }
        i = i + 1;
    }
    assert(s@.subrange(n - k, n as int) =~= suffix@);
    true
}

/// Whether `s` starts with `prefix`, as `str::starts_with` answers.
pub fn starts_with(s: &str, prefix: &str) -> (res: bool)
    ensures
        res == has_prefix(s@, prefix@),
{
    let n = s.unicode_len();
    let k = prefix.unicode_len();
    if k > n {
        return false;
    }
    let mut i: usize = 0;
    while i < k
        invariant
            n == s@.len(),
            k == prefix@.len(),
            k <= n,
            i <= k,
            forall|j: int| 0 <= j < i ==> s@[j] == prefix@[j],
        decreases k - i,
    {
        if s.get_char(i) != prefix.get_char(i) {
            assert(s@.subrange(0, k as int)[i as int] != prefix@[i as int]);
            return false;
        }
        i = i + 1;
    }
    assert(s@.subrange(0, k as int) =~= prefix@);
    true
}

/// Whether the two strings hold the same characters.
pub fn str_equal(a: &str, b: &str) -> (res: bool)
    ensures
        res == (a@ == b@),
{
    let n = a.unicode_len();
    if n != b.unicode_len() {
        return false;
    }
    let mut i: usize = 0;
    while i < n
        invariant
            n == a@.len(),
            n == b@.len(),
            i <= n,
            forall|j: int| 0 <= j < i ==> a@[j] == b@[j],
        decreases n - i,
    {
        if a.get_char(i) != b.get_char(i) {
            return false;
        }
        i = i + 1;
    }
    assert(a@ =~= b@);
    true
}

/// Most characters that a select-menu label may hold.
pub const MAX_LABEL_CHARS: usize = 100;

/// A select-menu label cut to at most `MAX_LABEL_CHARS` characters.
pub open spec fn truncated_label(label: Seq<char>) -> Seq<char> {
    if label.len() <= MAX_LABEL_CHARS {
        label
    } else {
        label.take(MAX_LABEL_CHARS - 3) + "..."@
    }
}

/// Cuts a label that is longer than `MAX_LABEL_CHARS` characters down to its
/// first characters and an ellipsis, so that the result has exactly
/// `MAX_LABEL_CHARS` characters; a shorter label comes back unchanged.
/// Characters are counted, never bytes, so no character is split.
pub fn truncate_select_label(label: &str) -> (res: String)
    ensures
        res@ == truncated_label(label@),
{
    let n = label.unicode_len();
    if n <= MAX_LABEL_CHARS {
        return label.to_owned();
    }
    let visible = label.substring_char(0, MAX_LABEL_CHARS - 3);
    let mut res = visible.to_owned();
    res.append("...");
    assert(label@.take(MAX_LABEL_CHARS - 3) =~= label@.subrange(0, MAX_LABEL_CHARS - 3));
    res
}

/// A select-menu label never exceeds the limit; a label within the limit
/// is kept as it is, and a longer one keeps its first characters and ends
/// with an ellipsis, at exactly the limit.
pub proof fn lemma_truncated_label(label: Seq<char>)
    ensures
        truncated_label(label).len() <= MAX_LABEL_CHARS,
        label.len() <= MAX_LABEL_CHARS ==> truncated_label(label) == label,
        label.len() > MAX_LABEL_CHARS ==> {
            &&& truncated_label(label).len() == MAX_LABEL_CHARS
            &&& truncated_label(label).take(MAX_LABEL_CHARS - 3) == label.take(
                MAX_LABEL_CHARS - 3,
            )
            &&& has_suffix(truncated_label(label), "..."@)
        },
{
    reveal_strlit("...");
    if label.len() > MAX_LABEL_CHARS {
        let t = truncated_label(label);
        assert(t.take(MAX_LABEL_CHARS - 3) =~= label.take(MAX_LABEL_CHARS - 3));
        assert(t.subrange(t.len() - 3, t.len() as int) =~= "..."@);
    }
}

} // verus!
