//! Splitting text on HTML whitespace.
use vstd::prelude::*;

verus! {

/// The characters that HTML counts as whitespace: space, tab, line feed,
/// form feed and carriage return.
pub open spec fn is_html_space(c: char) -> bool {
    c == ' ' || c == '\t' || c == '\n' || c == '\x0C' || c == '\r'
}

/// The pending token, as a list of zero or one tokens.
pub open spec fn flush(cur: Seq<char>) -> Seq<Seq<char>> {
    if cur.len() == 0 {
        seq![]
    } else {
        seq![cur]
    }
}

/// The tokens of `s`, given that the characters `cur` of a token have been
/// read just before it.
pub open spec fn tokens_from(s: Seq<char>, cur: Seq<char>) -> Seq<Seq<char>>
    decreases s.len(),
{
    if s.len() == 0 {
        flush(cur)
    } else if is_html_space(s[0]) {
        flush(cur) + tokens_from(s.drop_first(), seq![])
    } else {
        tokens_from(s.drop_first(), cur.push(s[0]))
    }
}

/// The maximal runs of non-whitespace characters of `s`, left to right.
pub open spec fn html_tokens(s: Seq<char>) -> Seq<Seq<char>> {
    tokens_from(s, seq![])
}

/// The views of a list of string slices.
pub open spec fn views_of(v: Seq<&str>) -> Seq<Seq<char>> {
    v.map_values(|t: &str| t@)
}

fn is_space_char(c: char) -> (r: bool)
    ensures
        r == is_html_space(c),
{
    c == ' ' || c == '\t' || c == '\n' || c == '\x0C' || c == '\r'
}

/// Splits `s` into its maximal runs of non-whitespace characters.
pub fn split_html_space_chars(s: &str) -> (r: Vec<&str>)
    ensures
        views_of(r@) == html_tokens(s@),
{
    let n = s.unicode_len();
    let mut out: Vec<&str> = Vec::new();
    let mut start: usize = 0;
    let mut i: usize = 0;
    assert(s@.subrange(0, n as int) =~= s@);
    assert(s@.subrange(0, 0) =~= seq![]);
    assert(views_of(out@) =~= seq![]);
    assert(views_of(out@) + html_tokens(s@) =~= html_tokens(s@));
    while i < n
        invariant
            n == s@.len(),
            start <= i <= n,
            views_of(out@) + tokens_from(s@.subrange(i as int, n as int), s@.subrange(start as int, i as int))
                == html_tokens(s@),
        decreases n - i,
    {
        let c = s.get_char(i);
        let ghost rest = s@.subrange(i as int, n as int);
        let ghost cur = s@.subrange(start as int, i as int);
        assert(rest.drop_first() =~= s@.subrange(i + 1, n as int));
        assert(rest[0] == c);
        if is_space_char(c) {
            let ghost before = views_of(out@);
            if start < i {
                let t = s.substring_char(start, i);
                out.push(t);
                assert(views_of(out@) =~= before + flush(cur));
            } else {
                assert(views_of(out@) =~= before + flush(cur));
            }
            assert(s@.subrange(i + 1, i + 1) =~= seq![]);
            assert(before + (flush(cur) + tokens_from(rest.drop_first(), seq![]))
                =~= views_of(out@) + tokens_from(rest.drop_first(), seq![]));
            start = i + 1;
        } else {
            assert(cur.push(c) =~= s@.subrange(start as int, i + 1));
        }
        i = i + 1;
    }
    let ghost cur = s@.subrange(start as int, n as int);
    let ghost before = views_of(out@);
    assert(s@.subrange(n as int, n as int) =~= seq![]);
    if start < n {
        let t = s.substring_char(start, n);
        out.push(t);
    }
    assert(views_of(out@) =~= before + flush(cur));
    out
}

/// The characters of `s` that are not whitespace, in order.
pub open spec fn non_space(s: Seq<char>) -> Seq<char> {
    s.filter(|c: char| !is_html_space(c))
}

/// How many runs of non-whitespace characters start in `s`; when
/// `after_space` is false, a run that `s` opens continues one before it.
pub open spec fn run_count(s: Seq<char>, after_space: bool) -> nat
    decreases s.len(),
{
    if s.len() == 0 {
        0
    } else if is_html_space(s[0]) {
        run_count(s.drop_first(), true)
    } else {
        (if after_space { 1nat } else { 0nat }) + run_count(s.drop_first(), false)
    }
}

/// Whether `t` is a token: non-empty and free of whitespace.
pub open spec fn is_token(t: Seq<char>) -> bool {
    t.len() > 0 && forall|j: int| 0 <= j < t.len() ==> !is_html_space(#[trigger] t[j])
}

/// What the tokens read after a partial token `cur` are: each is a token,
/// together they are `cur` and the non-whitespace characters of `s`, and there
/// is one per run that `s` starts plus one for `cur` where it is non-empty.
pub proof fn lemma_tokens_from(s: Seq<char>, cur: Seq<char>)
    requires
        forall|j: int| 0 <= j < cur.len() ==> !is_html_space(#[trigger] cur[j]),
    ensures
        forall|k: int| 0 <= k < tokens_from(s, cur).len() ==> is_token(#[trigger] tokens_from(s, cur)[k]),
        tokens_from(s, cur).flatten() == cur + non_space(s),
        tokens_from(s, cur).len() == run_count(s, cur.len() == 0) + (if cur.len() > 0 { 1nat } else { 0nat }),
    decreases s.len(),
{
    let toks = tokens_from(s, cur);
    if s.len() == 0 {
        assert(non_space(s) =~= Seq::<char>::empty()) by {
            reveal_with_fuel(Seq::filter, 1);
        }
        if cur.len() > 0 {
            seq![cur].lemma_flatten_one_element();
        }
        assert(toks.flatten() =~= cur + non_space(s));
    } else {
        let x = s[0];
        let rest = s.drop_first();
        assert(s =~= seq![x] + rest);
        rest.lemma_filter_prepend(x, |c: char| !is_html_space(c));
        if is_html_space(x) {
            lemma_tokens_from(rest, seq![]);
            let tail = tokens_from(rest, seq![]);
            assert(seq![] + non_space(rest) =~= non_space(rest));
            assert(non_space(s) =~= non_space(rest));
            if cur.len() > 0 {
                let both = seq![cur] + tail;
                assert(both.first() == cur);
                assert(both.drop_first() =~= tail);
                assert(toks == both);
                assert(toks.flatten() == cur + tail.flatten());
            } else {
                assert(toks =~= tail);
                assert(cur + non_space(s) =~= non_space(s));
            }
        } else {
            let cur2 = cur.push(x);
            assert forall|j: int| 0 <= j < cur2.len() implies !is_html_space(#[trigger] cur2[j]) by {
                if j < cur.len() {
                    assert(cur2[j] == cur[j]);
                }
            }
            lemma_tokens_from(rest, cur2);
            assert(non_space(s) =~= seq![x] + non_space(rest));
            assert(cur2 + non_space(rest) =~= cur + non_space(s));
        }
    }
}

} // verus!
