//! Paths as strings: joining, splitting into components, and prefixes.
//!
//! A path is a string whose components are separated by `/`. Empty
//! components and components `.` do not count; a path that begins with
//! `/` is absolute and has the root `/` as its first component.

use vstd::prelude::*;
use vstd::string::*;

use crate::text::{same_text, texts};

verus! {

/// Whether `path` is absolute.
pub open spec fn is_absolute(path: Seq<char>) -> bool {
    path.len() > 0 && path[0] == '/'
}

/// `part` appended to `base`: an empty `part` adds nothing; an absolute
/// `part` stands alone; else it follows `base` after a separator, which
/// is added where `base` is not empty and does not end in one.
pub open spec fn joined(base: Seq<char>, part: Seq<char>) -> Seq<char> {
    if part.len() == 0 {
        base
    } else if is_absolute(part) {
        part
    } else if base.len() == 0 {
        part
    } else if base.last() == '/' {
        base + part
    } else {
        base + seq!['/'] + part
    }
}

/// The pieces of `s` between its separators, empty ones too.
pub open spec fn pieces(s: Seq<char>) -> Seq<Seq<char>>
    decreases s.len(),
{
    if s.len() == 0 {
        seq![Seq::empty()]
    } else {
        let before = pieces(s.drop_last());
        if s.last() == '/' {
            before.push(Seq::empty())
        } else {
            before.drop_last().push(before.last().push(s.last()))
        }
    }
}

/// Whether a piece counts as a component: it is neither empty nor `.`.
pub open spec fn counts(piece: Seq<char>) -> bool {
    piece.len() > 0 && piece != seq!['.']
}

/// Those of `ps` that count as components, in order.
pub open spec fn counted(ps: Seq<Seq<char>>) -> Seq<Seq<char>>
    decreases ps.len(),
{
    if ps.len() == 0 {
        Seq::empty()
    } else if counts(ps.last()) {
        counted(ps.drop_last()).push(ps.last())
    } else {
        counted(ps.drop_last())
    }
}

/// The root component, where `path` is absolute.
pub open spec fn root_of(path: Seq<char>) -> Seq<Seq<char>> {
    if is_absolute(path) {
        seq![seq!['/']]
    } else {
        Seq::empty()
    }
}

/// The components of `path`.
pub open spec fn components(path: Seq<char>) -> Seq<Seq<char>> {
    root_of(path) + counted(pieces(path))
}

/// `parts` appended to `base` one after the other.
pub open spec fn joined_all(base: Seq<char>, parts: Seq<Seq<char>>) -> Seq<char>
    decreases parts.len(),
{
    if parts.len() == 0 {
        base
    } else {
        joined(joined_all(base, parts.drop_last()), parts.last())
    }
}

/// Whether the components of `prefix` are the first components of `path`.
pub open spec fn begins_with(path: Seq<char>, prefix: Seq<char>) -> bool {
    components(prefix).is_prefix_of(components(path))
}

/// `path` with its leading components `old_prefix` replaced by
/// `new_prefix`, where it begins with them.
pub open spec fn with_prefix_changed(
    old_prefix: Seq<char>,
    new_prefix: Seq<char>,
    path: Seq<char>,
) -> Option<Seq<char>> {
    if begins_with(path, old_prefix) {
        Some(joined_all(new_prefix, components(path).skip(components(old_prefix).len() as int)))
    } else {
        None
    }
}

/// `part` appended to `base`.
pub fn join(base: &str, part: &str) -> (r: String)
    ensures
        r@ == joined(base@, part@),
{
    let n = base.unicode_len();
    if part.unicode_len() == 0 {
        base.to_owned()
    } else if part.get_char(0) == '/' {
        part.to_owned()
    } else if n == 0 {
        part.to_owned()
    } else if base.get_char(n - 1) == '/' {
        let mut s = base.to_owned();
        s.append(part);
        s
    } else {
        proof {
            reveal_strlit("/");
        }
        let mut s = base.to_owned();
        s.append("/");
        s.append(part);
        assert(s@ =~= base@ + seq!['/'] + part@);
        s
    }
}

/// The components of `path`.
pub fn split(path: &str) -> (r: Vec<String>)
    ensures
        texts(r@) == components(path@),
{
    let n = path.unicode_len();
    let mut out: Vec<String> = Vec::new();
    if n > 0 && path.get_char(0) == '/' {
        proof {
            reveal_strlit("/");
        }
        out.push("/".to_owned());
        assert("/"@ =~= seq!['/']);
        assert(texts(out@) =~= seq![seq!['/']]);
    } else {
        assert(texts(out@) =~= root_of(path@));
    }
    let mut start: usize = 0;
    let mut i: usize = 0;
    assert(path@.take(0) =~= Seq::<char>::empty());
    assert(pieces(path@.take(0)).drop_last() =~= Seq::<Seq<char>>::empty());
    assert(path@.subrange(0, 0) =~= Seq::<char>::empty());
    while i < n
        invariant
            start <= i <= n,
            n == path@.len(),
            pieces(path@.take(i as int)).len() >= 1,
            texts(out@) == root_of(path@) + counted(pieces(path@.take(i as int)).drop_last()),
            pieces(path@.take(i as int)).last() == path@.subrange(start as int, i as int),
        decreases n - i,
    {
        let ghost before = pieces(path@.take(i as int));
        let ghost shown = texts(out@);
        proof {
            assert(path@.take(i + 1).drop_last() =~= path@.take(i as int));
            assert(path@.take(i + 1).last() == path@[i as int]);
        }
        if path.get_char(i) == '/' {
            let dot = i - start == 1 && path.get_char(start) == '.';
            if i > start && !dot {
                out.push(path.substring_char(start, i).to_owned());
                assert(texts(out@) =~= shown.push(path@.subrange(start as int, i as int)));
            }
            proof {
                let piece = path@.subrange(start as int, i as int);
                if piece.len() == 1 {
                    assert(piece[0] == path@[start as int]);
                    assert(dot <==> piece =~= seq!['.']);
                }
                assert(counts(piece) == (i > start && !dot));
                let after = pieces(path@.take(i + 1));
                assert(after == before.push(Seq::empty()));
                assert(after.drop_last() =~= before);
                assert(path@.subrange(i + 1, i + 1) =~= Seq::<char>::empty());
                assert(texts(out@) =~= root_of(path@) + counted(before));
            }
            start = i + 1;
        } else {
            proof {
                let after = pieces(path@.take(i + 1));
                assert(after == before.drop_last().push(before.last().push(path@[i as int])));
                assert(after.drop_last() =~= before.drop_last());
                assert(path@.subrange(start as int, i + 1) =~= path@.subrange(
                    start as int,
                    i as int,
                ).push(path@[i as int]));
            }
        }
        i += 1;
    }
    let ghost shown = texts(out@);
    let dot = n - start == 1 && path.get_char(start) == '.';
    if n > start && !dot {
        out.push(path.substring_char(start, n).to_owned());
        assert(texts(out@) =~= shown.push(path@.subrange(start as int, n as int)));
    }
    proof {
        assert(path@.take(n as int) =~= path@);
        let piece = path@.subrange(start as int, n as int);
        if piece.len() == 1 {
            assert(piece[0] == path@[start as int]);
            assert(dot <==> piece =~= seq!['.']);
        }
        assert(counts(piece) == (n > start && !dot));
        assert(texts(out@) =~= components(path@));
    }
    out
}

/// `parts`, from position `from` on, appended to `base` one after the other.
pub fn join_all(base: &str, parts: &Vec<String>, from: usize) -> (r: String)
    requires
        from <= parts@.len(),
    ensures
        r@ == joined_all(base@, texts(parts@).skip(from as int)),
{
    let mut s = base.to_owned();
    let mut i: usize = from;
    let ghost rest = texts(parts@).skip(from as int);
    assert(rest.take(0) =~= Seq::<Seq<char>>::empty());
    while i < parts.len()
        invariant
            from <= i <= parts@.len(),
            rest == texts(parts@).skip(from as int),
            s@ == joined_all(base@, rest.take(i - from)),
        decreases parts@.len() - i,
    {
        proof {
            assert(rest.take(i + 1 - from).drop_last() =~= rest.take(i - from));
            assert(rest.take(i + 1 - from).last() == parts@[i as int]@);
        }
        s = join(s.as_str(), parts[i].as_str());
        i += 1;
    }
    assert(rest.take(i - from) =~= rest);
    s
}

/// Whether the components of `prefix` are the first components of `path`.
pub fn starts_with(path: &str, prefix: &str) -> (r: bool)
    ensures
        r == begins_with(path@, prefix@),
{
    let whole = split(path);
    let head = split(prefix);
    has_prefix(&whole, &head)
}

/// Whether the strings of `head` are the first strings of `whole`.
fn has_prefix(whole: &Vec<String>, head: &Vec<String>) -> (r: bool)
    ensures
        r == texts(head@).is_prefix_of(texts(whole@)),
{
    if head.len() > whole.len() {
        return false;
    }
    let mut i: usize = 0;
    while i < head.len()
        invariant
            i <= head@.len() <= whole@.len(),
            forall|j: int| 0 <= j < i ==> (#[trigger] head@[j])@ == whole@[j]@,
        decreases head@.len() - i,
    {
        if !same_text(head[i].as_str(), whole[i].as_str()) {
            proof {
                let a = texts(head@);
                let b = texts(whole@);
                if a.is_prefix_of(b) {
                    assert(a[i as int] == b.subrange(0, a.len() as int)[i as int]);
                }
            }
            return false;
        }
        i += 1;
    }
    assert(texts(head@) =~= texts(whole@).subrange(0, head@.len() as int));
    true
}

/// `path` with its leading components `old_prefix` replaced by
/// `new_prefix`; `None` where `path` does not begin with them.
pub fn change_file_prefix(old_prefix: &str, new_prefix: &str, path: &str) -> (r: Option<String>)
    ensures
        match with_prefix_changed(old_prefix@, new_prefix@, path@) {
            Some(changed) => r matches Some(s) && s@ == changed,
            None => r is None,
        },
{
    let whole = split(path);
    let head = split(old_prefix);
    if has_prefix(&whole, &head) {
        Some(join_all(new_prefix, &whole, head.len()))
    } else {
        None
    }
}

/// `s` without its first character; empty where `s` is.
pub fn strip_first_char(s: &str) -> (r: String)
    ensures
        r@ == if s@.len() == 0 {
            s@
        } else {
            s@.drop_first()
        },
{
    let n = s.unicode_len();
    if n == 0 {
        s.to_owned()
    } else {
        assert(s@.subrange(1, n as int) =~= s@.drop_first());
        s.substring_char(1, n).to_owned()
    }
}

} // verus!
