//! Normalisation of description text: white-space runs collapse to single
//! spaces, and a known upstream encoding glitch is stripped.
use vstd::prelude::*;

verus! {

/// Unicode's White_Space property, as `char::is_whitespace` documents it.
pub open spec fn is_white_space(c: char) -> bool {
    let n = c as u32;
    (0x9 <= n && n <= 0xD) || n == 0x20 || n == 0x85 || n == 0xA0 || n == 0x1680 || (0x2000 <= n
        && n <= 0x200A) || n == 0x2028 || n == 0x2029 || n == 0x202F || n == 0x205F || n == 0x3000
}

/// The maximal runs of non-white-space characters of `s`, in order.
pub open spec fn words(s: Seq<char>) -> Seq<Seq<char>>
    decreases s.len(),
{
    if s.len() == 0 {
        seq![]
    } else {
        let prev = words(s.drop_last());
        let c = s.last();
        if is_white_space(c) {
            prev
        } else if s.len() > 1 && !is_white_space(s[s.len() - 2]) {
            prev.drop_last().push(prev.last().push(c))
        } else {
            prev.push(seq![c])
        }
    }
}

/// The words of `w` separated by single spaces.
pub open spec fn join_words(w: Seq<Seq<char>>) -> Seq<char>
    decreases w.len(),
{
    if w.len() == 0 {
        seq![]
    } else if w.len() == 1 {
        w[0]
    } else {
        join_words(w.drop_last()) + seq![' '] + w.last()
    }
}

/// `s` with every white-space run made a single space, and none at either end.
pub open spec fn collapse_white_space(s: Seq<char>) -> Seq<char> {
    join_words(words(s))
}

/// The literal text `\u000` that the species upstream leaves in some entries.
pub open spec fn artifact() -> Seq<char> {
    seq!['\\', 'u', '0', '0', '0']
}

/// `s` with each occurrence of the artifact removed, scanning from the left
/// without overlap.
pub open spec fn strip_artifacts(s: Seq<char>) -> Seq<char>
    decreases s.len(),
{
    if s.len() == 0 {
        seq![]
    } else if s.len() >= 5 && s.take(5) == artifact() {
        strip_artifacts(s.skip(5))
    } else {
        seq![s[0]] + strip_artifacts(s.skip(1))
    }
}

/// A description as it is handed on: white space collapsed and artifacts
/// stripped, again and again while stripping removes something (a removal can
/// bring spaces or the pieces of a new artifact together).
pub open spec fn cleanup(s: Seq<char>) -> Seq<char>
    decreases s.len(),
    via cleanup_decreases
{
    let c = collapse_white_space(s);
    let t = strip_artifacts(c);
    if t.len() < c.len() {
        cleanup(t)
    } else {
        t
    }
}

#[via_fn]
proof fn cleanup_decreases(s: Seq<char>) {
    lemma_collapse_prefixes(s, s.len() as int);
    assert(s.take(s.len() as int) =~= s);
}

pub fn is_white_space_char(c: char) -> (r: bool)
    ensures
        r == is_white_space(c),
{
    let n = c as u32;
    (0x9 <= n && n <= 0xD) || n == 0x20 || n == 0x85 || n == 0xA0 || n == 0x1680 || (0x2000 <= n
        && n <= 0x200A) || n == 0x2028 || n == 0x2029 || n == 0x202F || n == 0x205F || n == 0x3000
}


proof fn lemma_words_nonempty(s: Seq<char>)
    ensures
        forall|k: int| 0 <= k < words(s).len() ==> #[trigger] words(s)[k].len() > 0,
        s.len() > 0 && !is_white_space(s.last()) ==> words(s).len() > 0,
    decreases s.len(),
{
    if s.len() > 0 {
        let t = s.drop_last();
        lemma_words_nonempty(t);
        if s.len() > 1 {
            assert(t.last() == s[s.len() - 2]);
        }
        let w = words(s);
        let p = words(t);
        if !is_white_space(s.last()) && s.len() > 1 && !is_white_space(s[s.len() - 2]) {
            assert forall|k: int| 0 <= k < w.len() implies #[trigger] w[k].len() > 0 by {
                if k < w.len() - 1 {
                    assert(w[k] == p[k]);
                }
            }
        } else if !is_white_space(s.last()) {
            assert forall|k: int| 0 <= k < w.len() implies #[trigger] w[k].len() > 0 by {
                if k < w.len() - 1 {
                    assert(w[k] == p[k]);
                }
            }
        }
    }
}

proof fn lemma_join_empty(w: Seq<Seq<char>>)
    requires
        forall|k: int| 0 <= k < w.len() ==> #[trigger] w[k].len() > 0,
    ensures
        join_words(w).len() == 0 <==> w.len() == 0,
{
    if w.len() > 1 {
        assert(w[w.len() - 1].len() > 0);
    } else if w.len() == 1 {
        assert(w[0].len() > 0);
    }
}

proof fn lemma_join_push(w: Seq<Seq<char>>, x: Seq<char>)
    ensures
        join_words(w.push(x)) == if w.len() == 0 {
            x
        } else {
            join_words(w) + seq![' '] + x
        },
{
    assert(w.push(x).drop_last() =~= w);
}

proof fn lemma_join_extend(w: Seq<Seq<char>>, c: char)
    requires
        w.len() > 0,
    ensures
        join_words(w.drop_last().push(w.last().push(c))) == join_words(w).push(c),
{
    let v = w.drop_last().push(w.last().push(c));
    assert(v.drop_last() =~= w.drop_last());
    if w.len() == 1 {
        assert(v[0] == w[0].push(c));
    } else {
        assert(join_words(v) =~= join_words(w).push(c));
    }
}

/// How the collapsed form of a prefix grows by one character.
proof fn lemma_collapse_step(s: Seq<char>, i: int)
    requires
        0 <= i < s.len(),
    ensures
        ({
            let prev = collapse_white_space(s.take(i));
            let c = s[i];
            collapse_white_space(s.take(i + 1)) == if is_white_space(c) {
                prev
            } else if i > 0 && !is_white_space(s[i - 1]) {
                prev.push(c)
            } else if prev.len() == 0 {
                seq![c]
            } else {
                prev + seq![' '] + seq![c]
            }
        }),
{
    let t = s.take(i + 1);
    assert(t.drop_last() =~= s.take(i));
    let w = words(s.take(i));
    let c = s[i];
    lemma_words_nonempty(s.take(i));
    lemma_join_empty(w);
    if !is_white_space(c) {
        if i > 0 && !is_white_space(s[i - 1]) {
            assert(t[t.len() - 2] == s[i - 1]);
            assert(s.take(i).drop_last() =~= s.take(i - 1));
            assert(w.len() > 0);
            lemma_join_extend(w, c);
        } else {
            if i > 0 {
                assert(t[t.len() - 2] == s[i - 1]);
            }
            lemma_join_push(w, seq![c]);
        }
    }
}

/// The characters of `s`, one per element.
pub fn chars_of(s: &str) -> (r: Vec<char>)
    ensures
        r@ == s@,
{
    let n = s.unicode_len();
    let mut v: Vec<char> = Vec::new();
    let mut i: usize = 0;
    while i < n
        invariant
            n == s@.len(),
            i <= n,
            v@ == s@.take(i as int),
        decreases n - i,
    {
        v.push(s.get_char(i));
        i += 1;
        assert(v@ =~= s@.take(i as int));
    }
    assert(s@.take(n as int) =~= s@);
    v
}

/// Collapses each white-space run of `s` to a single space, and drops those
/// at either end.
pub fn collapse_white_space_chars(s: &Vec<char>) -> (r: Vec<char>)
    ensures
        r@ == collapse_white_space(s@),
{
    let mut out: Vec<char> = Vec::new();
    let mut i: usize = 0;
    assert(s@.take(0) =~= Seq::<char>::empty());
    while i < s.len()
        invariant
            i <= s.len(),
            out@ == collapse_white_space(s@.take(i as int)),
        decreases s.len() - i,
    {
        let c = s[i];
        proof {
            lemma_collapse_step(s@, i as int);
        }
        if !is_white_space_char(c) {
            if i > 0 && is_white_space_char(s[i - 1]) && out.len() > 0 {
                out.push(' ');
            }
            out.push(c);
        }
        i += 1;
        assert(out@ =~= collapse_white_space(s@.take(i as int)));
    }
    assert(s@.take(s.len() as int) =~= s@);
    out
}


/// `t` holds the artifact at position `i`.
pub open spec fn artifact_at(t: Seq<char>, i: int) -> bool {
    0 <= i && i + 5 <= t.len() && t.subrange(i, i + 5) == artifact()
}

/// Its only white space is single spaces between other characters.
pub open spec fn spaced_once(t: Seq<char>) -> bool {
    forall|i: int|
        0 <= i < t.len() && is_white_space(#[trigger] t[i]) ==> t[i] == ' ' && 0 < i && i + 1
            < t.len() && !is_white_space(t[i - 1]) && !is_white_space(t[i + 1])
}

/// A text that cleaning leaves as it is: single interior spaces, no artifact.
pub open spec fn is_clean(t: Seq<char>) -> bool {
    spaced_once(t) && forall|i: int| !#[trigger] artifact_at(t, i)
}

proof fn lemma_strip_without_artifact(t: Seq<char>)
    requires
        forall|i: int| !#[trigger] artifact_at(t, i),
    ensures
        strip_artifacts(t) == t,
    decreases t.len(),
{
    if t.len() > 0 {
        if t.len() >= 5 {
            assert(t.take(5) =~= t.subrange(0, 5));
            assert(!artifact_at(t, 0));
        }
        let u = t.skip(1);
        assert forall|i: int| !#[trigger] artifact_at(u, i) by {
            if artifact_at(u, i) {
                assert(t.subrange(i + 1, i + 6) =~= u.subrange(i, i + 5));
                assert(artifact_at(t, i + 1));
            }
        }
        lemma_strip_without_artifact(u);
        assert(seq![t[0]] + u =~= t);
    }
}

/// Stripping never lengthens, and keeps the length only where it finds no
/// artifact.
proof fn lemma_strip_len(t: Seq<char>)
    ensures
        strip_artifacts(t).len() <= t.len(),
        strip_artifacts(t).len() == t.len() ==> forall|i: int| !#[trigger] artifact_at(t, i),
    decreases t.len(),
{
    if t.len() > 0 {
        if t.len() >= 5 && t.take(5) == artifact() {
            lemma_strip_len(t.skip(5));
        } else {
            let u = t.skip(1);
            lemma_strip_len(u);
            if strip_artifacts(t).len() == t.len() {
                assert forall|i: int| !#[trigger] artifact_at(t, i) by {
                    if artifact_at(t, i) {
                        if i == 0 {
                            assert(t.take(5) =~= t.subrange(0, 5));
                        } else {
                            assert(t.subrange(i, i + 5) =~= u.subrange(i - 1, i + 4));
                            assert(artifact_at(u, i - 1));
                        }
                    }
                }
            }
        }
    }
}

/// The collapsed forms of the prefixes of a text: never longer than the
/// prefix (shorter by one after white space), and spaced once.
proof fn lemma_collapse_prefixes(s: Seq<char>, i: int)
    requires
        0 <= i <= s.len(),
    ensures
        ({
            let c = collapse_white_space(s.take(i));
            &&& c.len() + (if i > 0 && is_white_space(s[i - 1]) && c.len() > 0 {
                1int
            } else {
                0int
            }) <= i
            &&& spaced_once(c)
        }),
    decreases i,
{
    if i == 0 {
        assert(s.take(0) =~= Seq::<char>::empty());
    } else {
        lemma_collapse_prefixes(s, i - 1);
        lemma_collapse_step(s, i - 1);
        let prev = collapse_white_space(s.take(i - 1));
        let c = s[i - 1];
        let next = collapse_white_space(s.take(i));
        if !is_white_space(c) {
            assert forall|j: int|
                0 <= j < next.len() && is_white_space(#[trigger] next[j]) implies next[j] == ' '
                && 0 < j && j + 1 < next.len() && !is_white_space(next[j - 1]) && !is_white_space(
                next[j + 1],
            ) by {
                if j < prev.len() {
                    assert(next[j] == prev[j]);
                    assert(is_white_space(prev[j]));
                    assert(j + 1 < prev.len());
                    assert(next[j + 1] == prev[j + 1]);
                    assert(next[j - 1] == prev[j - 1]);
                } else if j == prev.len() && prev.len() > 0 && (i - 1 == 0 || is_white_space(
                    s[i - 2],
                )) {
                    if is_white_space(prev[prev.len() - 1]) {
                        assert(prev.len() - 1 + 1 < prev.len());
                    }
                    assert(next[j - 1] == prev[prev.len() - 1]);
                }
            }
        }
    }
}

/// A text spaced once is its own collapsed form.
proof fn lemma_collapse_spaced_once(t: Seq<char>, i: int)
    requires
        spaced_once(t),
        0 <= i <= t.len(),
    ensures
        collapse_white_space(t.take(i)) == if i > 0 && is_white_space(t[i - 1]) {
            t.take(i - 1)
        } else {
            t.take(i)
        },
    decreases i,
{
    if i == 0 {
        assert(t.take(0) =~= Seq::<char>::empty());
    } else {
        lemma_collapse_spaced_once(t, i - 1);
        lemma_collapse_step(t, i - 1);
        let c = t[i - 1];
        if !is_white_space(c) {
            if i - 1 > 0 && !is_white_space(t[i - 2]) {
                assert(t.take(i - 1).push(c) =~= t.take(i));
            } else if i - 1 == 0 {
                assert(seq![c] =~= t.take(i));
            } else {
                assert(t[i - 2] == ' ');
                assert(t.take(i - 2).len() > 0);
                assert(t.take(i - 2) + seq![' '] + seq![c] =~= t.take(i));
            }
        }
    }
}

/// A collapsed text is spaced once and no longer than the text.
proof fn lemma_collapse_whole(s: Seq<char>)
    ensures
        collapse_white_space(s).len() <= s.len(),
        spaced_once(collapse_white_space(s)),
{
    lemma_collapse_prefixes(s, s.len() as int);
    assert(s.take(s.len() as int) =~= s);
}

/// A clean text passes through a round of collapsing and stripping unchanged.
proof fn lemma_clean_is_fixed(t: Seq<char>)
    requires
        is_clean(t),
    ensures
        collapse_white_space(t) == t,
        strip_artifacts(t) == t,
{
    lemma_collapse_spaced_once(t, t.len() as int);
    assert(t.take(t.len() as int) =~= t);
    if t.len() > 0 && is_white_space(t[t.len() - 1]) {
        assert(t.len() - 1 + 1 < t.len());
    }
    lemma_strip_without_artifact(t);
}

/// What cleaning gives is clean: trimmed, spaced once, without an artifact.
pub proof fn lemma_cleanup_is_clean(s: Seq<char>)
    ensures
        is_clean(cleanup(s)),
    decreases s.len(),
{
    let c = collapse_white_space(s);
    let t = strip_artifacts(c);
    lemma_collapse_whole(s);
    lemma_strip_len(c);
    if t.len() < c.len() {
        lemma_cleanup_is_clean(t);
    } else {
        lemma_strip_without_artifact(c);
    }
}

/// A clean text is its own cleaned form.
pub proof fn lemma_cleanup_of_clean(t: Seq<char>)
    requires
        is_clean(t),
    ensures
        cleanup(t) == t,
{
    lemma_clean_is_fixed(t);
}

/// Cleaning is idempotent: cleaning a cleaned text changes nothing.
pub proof fn lemma_cleanup_idempotent(s: Seq<char>)
    ensures
        cleanup(cleanup(s)) == cleanup(s),
{
    lemma_cleanup_is_clean(s);
    lemma_cleanup_of_clean(cleanup(s));
}

/// Relies on std's `String::push`: the character is appended at the end.
#[verifier::external_body]
fn push_char(s: &mut String, c: char)
    ensures
        final(s)@ == old(s)@.push(c),
{
    s.push(c)
}

/// Removes each occurrence of the artifact from `s`, scanning from the left.
pub fn strip_artifacts_chars(s: &Vec<char>) -> (r: Vec<char>)
    ensures
        r@ == strip_artifacts(s@),
{
    let mut out: Vec<char> = Vec::new();
    let mut i: usize = 0;
    assert(s@.skip(0) =~= s@);
    while i < s.len()
        invariant
            i <= s.len(),
            out@ + strip_artifacts(s@.skip(i as int)) == strip_artifacts(s@),
        decreases s.len() - i,
    {
        let ghost rest = s@.skip(i as int);
        if s.len() - i >= 5 && s[i] == '\\' && s[i + 1] == 'u' && s[i + 2] == '0' && s[i + 3]
            == '0' && s[i + 4] == '0' {
            assert(rest.take(5) =~= artifact());
            assert(rest.skip(5) =~= s@.skip(i + 5));
            i += 5;
        } else {
            assert(rest.len() >= 5 ==> rest.take(5) != artifact()) by {
                if rest.len() >= 5 && rest.take(5) == artifact() {
                    assert(rest.take(5)[0] == s@[i as int]);
                    assert(rest.take(5)[1] == s@[i + 1]);
                    assert(rest.take(5)[2] == s@[i + 2]);
                    assert(rest.take(5)[3] == s@[i + 3]);
                    assert(rest.take(5)[4] == s@[i + 4]);
                }
            }
            assert(rest.skip(1) =~= s@.skip(i + 1));
            let ghost before = out@;
            out.push(s[i]);
            assert(out@ + strip_artifacts(s@.skip(i + 1)) =~= before + strip_artifacts(rest));
            i += 1;
        }
    }
    assert(s@.skip(s.len() as int) =~= Seq::<char>::empty());
    assert(out@ + Seq::<char>::empty() =~= out@);
    out
}

/// The text made of the characters of `v`.
pub fn string_of(v: &Vec<char>) -> (r: String)
    ensures
        r@ == v@,
{
    let mut out = String::new();
    let mut i: usize = 0;
    while i < v.len()
        invariant
            i <= v.len(),
            out@ == v@.take(i as int),
        decreases v.len() - i,
    {
        push_char(&mut out, v[i]);
        i += 1;
        assert(out@ =~= v@.take(i as int));
    }
    assert(v@.take(v.len() as int) =~= v@);
    out
}

/// The cleaned form of `s`.
pub fn cleanup_chars(s: &Vec<char>) -> (r: Vec<char>)
    ensures
        r@ == cleanup(s@),
{
    let mut cur: Vec<char> = s.clone();
    assert(cur@ =~= s@);
    loop
        invariant
            cleanup(cur@) == cleanup(s@),
        decreases cur.len(),
    {
        let collapsed = collapse_white_space_chars(&cur);
        let stripped = strip_artifacts_chars(&collapsed);
        proof {
            lemma_collapse_whole(cur@);
        }
        if stripped.len() < collapsed.len() {
            cur = stripped;
        } else {
            return stripped;
        }
    }
}

} // verus!
