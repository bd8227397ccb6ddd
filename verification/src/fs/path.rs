//! Paths: a path names the sequence of its components, the non-empty runs
//! of characters between slashes.

use vstd::prelude::*;
use vstd::string::StringExecFns;
use vstd::string::StrSliceExecFns;

verus! {

/// The run `s[start..end]` as a one-element list, or nothing when it is
/// empty.
pub open spec fn piece(s: Seq<char>, start: int, end: int) -> Seq<Seq<char>> {
    if start < end {
        seq![s.subrange(start, end)]
    } else {
        Seq::empty()
    }
}

/// The components of `s` from `start` on, where `s[start..i]` holds no slash.
pub open spec fn split_from(s: Seq<char>, start: int, i: int) -> Seq<Seq<char>>
    decreases s.len() - i,
{
    if i >= s.len() {
        piece(s, start, s.len() as int)
    } else if s[i] == '/' {
        piece(s, start, i) + split_from(s, i + 1, i + 1)
    } else {
        split_from(s, start, i + 1)
    }
}

/// The components of the path `s`: its maximal runs without a slash, empty
/// ones left out, in order.
pub open spec fn components(s: Seq<char>) -> Seq<Seq<char>> {
    split_from(s, 0, 0)
}

/// Whether `part` can be a component: not empty, no slash in it.
pub open spec fn is_component(part: Seq<char>) -> bool {
    part.len() > 0 && forall|i: int| 0 <= i < part.len() ==> part[i] != '/'
}

/// The path made of `parts`, each behind one slash; empty for no parts.
pub open spec fn rooted(parts: Seq<Seq<char>>) -> Seq<char>
    decreases parts.len(),
{
    if parts.len() == 0 {
        Seq::empty()
    } else {
        seq!['/'] + parts[0] + rooted(parts.skip(1))
    }
}

/// The views of the strings of `parts`.
pub open spec fn views(parts: Seq<String>) -> Seq<Seq<char>> {
    Seq::new(parts.len(), |i: int| parts[i]@)
}

proof fn lemma_split_shift(p: Seq<char>, s: Seq<char>, start: int, i: int)
    requires
        0 <= start <= i <= s.len(),
    ensures
        split_from(p + s, p.len() + start, p.len() + i) == split_from(s, start, i),
    decreases s.len() - i,
{
    let t = p + s;
    if i >= s.len() {
        assert(t.subrange(p.len() + start, t.len() as int) =~= s.subrange(start, s.len() as int));
    } else {
        assert(t[p.len() + i] == s[i]);
        if s[i] == '/' {
            assert(t.subrange(p.len() + start, p.len() + i) =~= s.subrange(start, i));
            lemma_split_shift(p, s, i + 1, i + 1);
        } else {
            lemma_split_shift(p, s, start, i + 1);
        }
    }
}

proof fn lemma_split_join(a: Seq<char>, b: Seq<char>, start: int, i: int)
    requires
        0 <= start <= i <= a.len(),
    ensures
        split_from(a + seq!['/'] + b, start, i) == split_from(a, start, i) + components(b),
    decreases a.len() - i,
{
    let t = a + seq!['/'] + b;
    if i == a.len() {
        assert(t[i] == '/');
        assert(t.subrange(start, i) =~= a.subrange(start, a.len() as int));
        lemma_split_shift(a + seq!['/'], b, 0, 0);
    } else {
        assert(t[i] == a[i]);
        if a[i] == '/' {
            assert(t.subrange(start, i) =~= a.subrange(start, i));
            lemma_split_join(a, b, i + 1, i + 1);
            assert(piece(a, start, i) + (split_from(a, i + 1, i + 1) + components(b)) =~= (piece(
                a,
                start,
                i,
            ) + split_from(a, i + 1, i + 1)) + components(b));
        } else {
            lemma_split_join(a, b, start, i + 1);
        }
    }
}

/// A slash between two paths joins their components: those of the first,
/// then those of the second.
pub proof fn lemma_components_join(a: Seq<char>, b: Seq<char>)
    ensures
        components(a + seq!['/'] + b) == components(a) + components(b),
{
    lemma_split_join(a, b, 0, 0);
}

/// A slash in front of a path does not change its components.
pub proof fn lemma_leading_slash(s: Seq<char>)
    ensures
        components(seq!['/'] + s) == components(s),
{
    let e = Seq::<char>::empty();
    lemma_components_join(e, s);
    assert(e + seq!['/'] + s =~= seq!['/'] + s);
    assert(components(e) + components(s) =~= components(s));
}

/// A slash behind a path does not change its components.
pub proof fn lemma_trailing_slash(s: Seq<char>)
    ensures
        components(s + seq!['/']) == components(s),
{
    let e = Seq::<char>::empty();
    lemma_components_join(s, e);
    assert(s + seq!['/'] + e =~= s + seq!['/']);
    assert(components(s) + components(e) =~= components(s));
}

/// Two slashes between two paths separate them as one slash does.
pub proof fn lemma_doubled_slash(a: Seq<char>, b: Seq<char>)
    ensures
        components(a + seq!['/', '/'] + b) == components(a + seq!['/'] + b),
{
    lemma_components_join(a, seq!['/'] + b);
    lemma_leading_slash(b);
    lemma_components_join(a, b);
    assert(a + seq!['/'] + (seq!['/'] + b) =~= a + seq!['/', '/'] + b);
}

proof fn lemma_split_plain(part: Seq<char>, i: int)
    requires
        is_component(part),
        0 <= i <= part.len(),
    ensures
        split_from(part, 0, i) == seq![part],
    decreases part.len() - i,
{
    if i >= part.len() {
        assert(part.subrange(0, part.len() as int) =~= part);
    } else {
        lemma_split_plain(part, i + 1);
    }
}

/// The components of a path built from components are those components.
pub proof fn lemma_components_of_rooted(parts: Seq<Seq<char>>)
    requires
        forall|i: int| 0 <= i < parts.len() ==> is_component(#[trigger] parts[i]),
    ensures
        components(rooted(parts)) == parts,
    decreases parts.len(),
{
    if parts.len() == 0 {
        assert(components(rooted(parts)) =~= parts);
    } else {
        let rest = parts.skip(1);
        assert forall|i: int| 0 <= i < rest.len() implies is_component(#[trigger] rest[i]) by {
            assert(rest[i] == parts[i + 1]);
        }
        lemma_components_of_rooted(rest);
        if rest.len() == 0 {
            assert(rooted(rest) =~= Seq::<char>::empty());
            assert(rooted(parts) =~= seq!['/'] + parts[0]);
            lemma_leading_slash(parts[0]);
            lemma_split_plain(parts[0], 0);
            assert(seq![parts[0]] =~= parts);
        } else {
            // rooted(rest) begins with a slash: split it there.
            let tail = parts[1] + rooted(rest.skip(1));
            assert(rooted(rest) =~= seq!['/'] + tail);
            assert(rooted(parts) =~= (seq!['/'] + parts[0]) + seq!['/'] + tail);
            lemma_components_join(seq!['/'] + parts[0], tail);
            lemma_leading_slash(parts[0]);
            lemma_split_plain(parts[0], 0);
            lemma_leading_slash(tail);
            assert(seq![parts[0]] + rest =~= parts);
        }
    }
}

/// Every component of a path is not empty and holds no slash.
pub proof fn lemma_components_are_components(s: Seq<char>)
    ensures
        forall|i: int| 0 <= i < components(s).len() ==> is_component(#[trigger] components(s)[i]),
{
    lemma_split_are_components(s, 0, 0);
}

proof fn lemma_split_are_components(s: Seq<char>, start: int, i: int)
    requires
        0 <= start <= i <= s.len(),
        forall|j: int| start <= j < i ==> s[j] != '/',
    ensures
        forall|k: int|
            0 <= k < split_from(s, start, i).len() ==> is_component(
                #[trigger] split_from(s, start, i)[k],
            ),
    decreases s.len() - i,
{
    if i >= s.len() {
        if start < s.len() {
            let run = s.subrange(start, s.len() as int);
            assert forall|j: int| 0 <= j < run.len() implies run[j] != '/' by {
                assert(run[j] == s[start + j]);
            }
            assert(is_component(run));
            assert(split_from(s, start, i)[0] == run);
        }
        assert(split_from(s, start, i).len() <= 1);
    } else if s[i] == '/' {
        lemma_split_are_components(s, i + 1, i + 1);
        let head = piece(s, start, i);
        let rest = split_from(s, i + 1, i + 1);
        if start < i {
            let run = s.subrange(start, i);
            assert forall|j: int| 0 <= j < run.len() implies run[j] != '/' by {
                assert(run[j] == s[start + j]);
            }
            assert(is_component(run));
            assert(head[0] == run);
        }
        assert(split_from(s, start, i) == head + rest);
        assert forall|k: int| 0 <= k < (head + rest).len() implies is_component(
            #[trigger] (head + rest)[k],
        ) by {
            if k < head.len() {
                assert((head + rest)[k] == head[k]);
            } else {
                assert((head + rest)[k] == rest[k - head.len()]);
            }
        }
    } else {
        lemma_split_are_components(s, start, i + 1);
        assert(split_from(s, start, i) == split_from(s, start, i + 1));
    }
}

/// Splits `path` at its slashes and drops the empty pieces.
pub fn split_path(path: &str) -> (parts: Vec<String>)
    ensures
        views(parts@) == components(path@),
{
    let n = path.unicode_len();
    let mut parts: Vec<String> = Vec::new();
    let mut start: usize = 0;
    let mut i: usize = 0;
    assert(views(parts@) + split_from(path@, 0, 0) =~= components(path@));
    while i < n
        invariant
            start <= i <= n,
            n == path@.len(),
            views(parts@) + split_from(path@, start as int, i as int) == components(path@),
        decreases n - i,
    {
        if path.get_char(i) == '/' {
            if start < i {
                let ghost before = parts@;
                let part = String::from_str(path.substring_char(start, i));
                parts.push(part);
                assert(views(parts@) =~= views(before) + piece(path@, start as int, i as int));
            }
            assert(views(parts@) + split_from(path@, i + 1, i + 1) =~= components(path@));
            start = i + 1;
        }
        i += 1;
    }
    if start < n {
        let ghost before = parts@;
        let part = String::from_str(path.substring_char(start, n));
        parts.push(part);
        assert(views(parts@) =~= views(before) + piece(path@, start as int, n as int));
    }
    assert(views(parts@) =~= components(path@));
    parts
}

} // verus!
