//! Paths as text: absolute paths, joining, and containment.
//!
//! A path is the sequence of its characters, with `/` between components.
//! Nothing here touches a file system.

use vstd::prelude::*;
use vstd::string::*;
use crate::text::{chars_of, has_prefix};

verus! {

/// A path is absolute when its text begins at the root.
pub open spec fn absolute(p: Seq<char>) -> bool {
    p.len() > 0 && p[0] == '/'
}

/// `dir`, closed by a separator unless it is empty or already ends in one.
pub open spec fn with_separator(dir: Seq<char>) -> Seq<char> {
    if dir.len() == 0 || dir.last() == '/' {
        dir
    } else {
        dir.push('/')
    }
}

/// `name` seen from `base`: an absolute `name` stands for itself, any other
/// is appended to `base` behind a separator.
pub open spec fn joined(base: Seq<char>, name: Seq<char>) -> Seq<char> {
    if absolute(name) {
        name
    } else {
        with_separator(base) + name
    }
}

/// The pieces of `s` between its separators, empty ones included.
pub open spec fn parts(s: Seq<char>) -> Seq<Seq<char>>
    decreases s.len(),
{
    if s.len() == 0 {
        seq![Seq::empty()]
    } else {
        let before = parts(s.drop_last());
        if s.last() == '/' {
            before.push(Seq::empty())
        } else {
            before.drop_last().push(before.last().push(s.last()))
        }
    }
}

/// A piece that names something: neither empty nor `.`.
pub open spec fn is_name(part: Seq<char>) -> bool {
    part.len() > 0 && part != seq!['.']
}

/// The test that picks the pieces that name something.
pub open spec fn names() -> spec_fn(Seq<char>) -> bool {
    |part: Seq<char>| is_name(part)
}

/// The path begins with a `.` component.
pub open spec fn begins_here(s: Seq<char>) -> bool {
    s.len() > 0 && s[0] == '.' && (s.len() == 1 || s[1] == '/')
}

/// What a path begins with, before its names: the root for an absolute
/// path, `.` for a path that begins with it, and else nothing.
pub open spec fn head(s: Seq<char>) -> Seq<Seq<char>> {
    if absolute(s) {
        seq![seq!['/']]
    } else if begins_here(s) {
        seq![seq!['.']]
    } else {
        Seq::empty()
    }
}

/// The components of a path: its head, then its names in order. Repeated
/// separators, separators at the end and `.` between names make no
/// difference; `..` is a name like any other.
pub open spec fn components(s: Seq<char>) -> Seq<Seq<char>> {
    head(s) + parts(s).filter(names())
}

/// `p` is `dir` itself or lies below it: the components of `dir` are the
/// first components of `p`.
pub open spec fn within(p: Seq<char>, dir: Seq<char>) -> bool {
    components(dir).is_prefix_of(components(p))
}

/// The texts of pieces, one for one.
pub open spec fn texts(pieces: Seq<Vec<char>>) -> Seq<Seq<char>> {
    pieces.map_values(|piece: Vec<char>| piece@)
}

/// Whether `p` is an absolute path.
pub fn is_absolute(p: &str) -> (b: bool)
    ensures
        b == absolute(p@),
{
    if p.is_empty() {
        false
    } else {
        p.get_char(0) == '/'
    }
}

/// Joins `name` onto `base`.
pub fn join(base: &str, name: &str) -> (r: String)
    ensures
        r@ == joined(base@, name@),
{
    if is_absolute(name) {
        return name.to_owned();
    }
    let mut r = base.to_owned();
    let n = base.unicode_len();
    if n > 0 && base.get_char(n - 1) != '/' {
        proof {
            reveal_strlit("/");
        }
        r.append("/");
        assert(r@ == base@.push('/'));
    }
    r.append(name);
    r
}

/// The components of the path `s`.
pub fn components_of(s: &str) -> (r: Vec<Vec<char>>)
    ensures
        texts(r@) == components(s@),
{
    let chars = chars_of(s);
    let n = chars.len();
    let mut kept: Vec<Vec<char>> = Vec::new();
    if n > 0 && chars[0] == '/' {
        let mut root: Vec<char> = Vec::new();
        root.push('/');
        kept.push(root);
        assert(root@ =~= seq!['/']);
    } else if n > 0 && chars[0] == '.' && (n == 1 || chars[1] == '/') {
        let mut here: Vec<char> = Vec::new();
        here.push('.');
        kept.push(here);
        assert(here@ =~= seq!['.']);
    }
    assert(texts(kept@) =~= head(s@));
    let mut cur: Vec<char> = Vec::new();
    let mut i: usize = 0;
    assert(chars@.take(0).len() == 0);
    proof {
        reveal(Seq::filter);
    }
    assert(parts(chars@.take(0)).drop_last().filter(names()) =~= Seq::<Seq<char>>::empty());
    while i < n
        invariant
            i <= n,
            n == chars.len(),
            chars@ == s@,
            parts(chars@.take(i as int)).len() >= 1,
            cur@ == parts(chars@.take(i as int)).last(),
            texts(kept@) == head(s@) + parts(chars@.take(i as int)).drop_last().filter(names()),
        decreases n - i,
    {
        let ghost before = parts(chars@.take(i as int));
        let ghost seen = chars@.take(i + 1);
        assert(seen.drop_last() =~= chars@.take(i as int));
        assert(seen.last() == chars@[i as int]);
        assert(before =~= before.drop_last().push(before.last()));
        if chars[i] == '/' {
            assert(parts(seen) == before.push(Seq::empty()));
            assert(parts(seen).drop_last() =~= before);
            proof {
                before.drop_last().lemma_filter_push(before.last(), names());
            }
            if cur.len() > 0 && !(cur.len() == 1 && cur[0] == '.') {
                let ghost had = texts(kept@);
                assert(is_name(cur@));
                kept.push(cur);
                assert(texts(kept@) =~= had.push(before.last()));
            } else {
                assert(!is_name(cur@)) by {
                    if cur@.len() == 1 && cur@[0] == '.' {
                        assert(cur@ =~= seq!['.']);
                    }
                }
            }
            cur = Vec::new();
        } else {
            assert(parts(seen) == before.drop_last().push(before.last().push(chars@[i as int])));
            assert(parts(seen).drop_last() =~= before.drop_last());
            cur.push(chars[i]);
        }
        i += 1;
    }
    assert(chars@.take(n as int) =~= s@);
    let ghost all = parts(s@);
    assert(all =~= all.drop_last().push(all.last()));
    proof {
        all.drop_last().lemma_filter_push(all.last(), names());
    }
    if cur.len() > 0 && !(cur.len() == 1 && cur[0] == '.') {
        let ghost had = texts(kept@);
        assert(is_name(cur@));
        kept.push(cur);
        assert(texts(kept@) =~= had.push(all.last()));
    } else {
        assert(!is_name(cur@)) by {
            if cur@.len() == 1 && cur@[0] == '.' {
                assert(cur@ =~= seq!['.']);
            }
        }
    }
    kept
}

/// Whether `p` is `dir` or lies below it.
pub fn is_within(p: &str, dir: &str) -> (b: bool)
    ensures
        b == within(p@, dir@),
{
    let below = components_of(p);
    let above = components_of(dir);
    if above.len() > below.len() {
        return false;
    }
    let mut i: usize = 0;
    while i < above.len()
        invariant
            i <= above.len() <= below.len(),
            texts(above@) == components(dir@),
            texts(below@) == components(p@),
            forall|k: int| 0 <= k < i ==> components(dir@)[k] == components(p@)[k],
        decreases above.len() - i,
    {
        assert(texts(above@)[i as int] == above@[i as int]@);
        assert(texts(below@)[i as int] == below@[i as int]@);
        if !has_prefix(&above[i], &below[i]) || above[i].len() != below[i].len() {
            assert(components(dir@)[i as int] != components(p@)[i as int]) by {
                if above@[i as int]@.len() == below@[i as int]@.len() {
                    assert(below@[i as int]@.subrange(0, above@[i as int]@.len() as int)
                        =~= below@[i as int]@);
                }
            }
            assert(components(p@).subrange(0, components(dir@).len() as int)[i as int]
                != components(dir@)[i as int]);
            return false;
        }
        assert(above@[i as int]@ =~= below@[i as int]@) by {
            assert(below@[i as int]@.subrange(0, above@[i as int]@.len() as int)
                =~= below@[i as int]@);
        }
        i += 1;
    }
    assert(components(p@).subrange(0, components(dir@).len() as int) =~= components(dir@));
    true
}

} // verus!
