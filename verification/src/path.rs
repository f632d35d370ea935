//! Paths as text: the directory above one, and when two are the same. Repeated
//! slashes, a slash at the end and a dot that stands alone say nothing.

use crate::media::slice_text;
use crate::text::{chars_of, push_char};
use vstd::prelude::*;

verus! {

broadcast use crate::model::group_model;

/// Whether the last character of `path` can be left out: a slash at its end, or
/// a dot that stands alone behind one.
pub open spec fn ends_idly(path: Seq<char>) -> bool {
    path.len() > 0 && (path.last() == '/' || (path.len() > 1 && path.last() == '.' && path[path.len()
        - 2] == '/'))
}

/// `path` without the slashes and the lone dots at its end.
pub open spec fn tidied(path: Seq<char>) -> Seq<char>
    decreases path.len(),
{
    if ends_idly(path) {
        tidied(path.drop_last())
    } else {
        path
    }
}

/// The directory that holds `path`; none holds the root.
pub open spec fn parent_of(path: Seq<char>) -> Option<Seq<char>> {
    let base = tidied(path);
    if base.len() == 0 {
        None
    } else {
        let name = crate::media::after_slash(base);
        let above = tidied(base.take(base.len() - name.len()));
        Some(
            if above.len() == 0 && base[0] == '/' {
                seq!['/']
            } else {
                above
            },
        )
    }
}

pub open spec fn is_rooted(path: Seq<char>) -> bool {
    path.len() > 0 && path[0] == '/'
}

/// Whether two paths name the same components, from the last one up, and both
/// begin at the root or neither does.
pub open spec fn is_same(a: Seq<char>, b: Seq<char>) -> bool
    decreases a.len(),
{
    let x = tidied(a);
    let y = tidied(b);
    if x.len() == 0 || y.len() == 0 {
        x.len() == y.len() && is_rooted(a) == is_rooted(b)
    } else {
        proof {
            tidied_is_shorter(a);
        }
        let last = crate::media::after_slash(x);
        last == crate::media::after_slash(y) && is_same(
            x.take(x.len() - last.len()),
            y.take(y.len() - last.len()),
        )
    }
}

/// What is left of a path is no longer than it, and ends in a name.
pub proof fn tidied_is_shorter(path: Seq<char>)
    ensures
        tidied(path).len() <= path.len(),
        tidied(path).len() > 0 ==> crate::media::after_slash(tidied(path)).len() > 0,
        crate::media::after_slash(tidied(path)).len() <= tidied(path).len(),
    decreases path.len(),
{
    if ends_idly(path) {
        tidied_is_shorter(path.drop_last());
    } else {
        name_is_shorter(path);
    }
}

proof fn name_is_shorter(path: Seq<char>)
    ensures
        crate::media::after_slash(path).len() <= path.len(),
    decreases path.len(),
{
    if path.len() > 0 {
        name_is_shorter(path.drop_last());
    }
}

fn tidy(chars: Vec<char>) -> (out: Vec<char>)
    ensures
        out@ == tidied(chars@),
{
    let mut out = chars;
    while out.len() > 0 && (out[out.len() - 1] == '/' || (out.len() > 1 && out[out.len() - 1] == '.'
        && out[out.len() - 2] == '/'))
        invariant
            tidied(out@) == tidied(chars@),
        decreases out@.len(),
    {
        let _ = out.pop();
    }
    out
}

/// Where the last name of a path begins.
fn name_start(path: &Vec<char>) -> (from: usize)
    ensures
        from <= path@.len(),
        crate::media::after_slash(path@) == path@.skip(from as int),
{
    let mut from: usize = path.len();
    while from > 0 && path[from - 1] != '/'
        invariant
            from <= path@.len(),
            forall|i: int| from <= i < path@.len() ==> path@[i] != '/',
        decreases from,
    {
        from -= 1;
    }
    proof {
        crate::media::after_slash_is_suffix(path@, from as int);
    }
    from
}

/// The directory that holds `path`; none holds the root.
pub fn parent(path: &str) -> (found: Option<String>)
    ensures
        crate::model::opt(found) == parent_of(path@),
{
    let base = tidy(chars_of(path));
    if base.len() == 0 {
        return None;
    }
    let from: usize = name_start(&base);
    proof {
        assert(base@.take(base@.len() - crate::media::after_slash(base@).len()) =~= base@.take(
            from as int,
        ));
    }
    let mut above: Vec<char> = Vec::new();
    let mut at: usize = 0;
    while at < from
        invariant
            at <= from <= base@.len(),
            above@ == base@.take(at as int),
        decreases from - at,
    {
        above.push(base[at]);
        at += 1;
        proof {
            assert(above@ =~= base@.take(at as int));
        }
    }
    let above = tidy(above);
    if above.len() == 0 && base[0] == '/' {
        let mut root = String::new();
        push_char(&mut root, '/');
        proof {
            assert(root@ =~= seq!['/']);
        }
        return Some(root);
    }
    proof {
        assert(above@.subrange(0, above@.len() as int) =~= above@);
    }
    Some(slice_text(&above, 0, above.len()))
}

fn same_chars(a: Vec<char>, b: Vec<char>) -> (same: bool)
    ensures
        same == is_same(a@, b@),
    decreases a@.len(),
{
    let from_root: bool = a.len() > 0 && a[0] == '/';
    let other_from_root: bool = b.len() > 0 && b[0] == '/';
    proof {
        tidied_is_shorter(a@);
    }
    let mut x = tidy(a);
    let mut y = tidy(b);
    if x.len() == 0 || y.len() == 0 {
        return x.len() == y.len() && from_root == other_from_root;
    }
    let from: usize = name_start(&x);
    let other: usize = name_start(&y);
    let ghost last = crate::media::after_slash(x@);
    let ghost rest = crate::media::after_slash(y@);
    if x.len() - from != y.len() - other {
        return false;
    }
    let mut at: usize = 0;
    while at < x.len() - from
        invariant
            from <= x@.len(),
            other <= y@.len(),
            x.len() - from == y.len() - other,
            at <= x@.len() - from,
            x@.len() > 0,
            y@.len() > 0,
            x@ == tidied(a@),
            y@ == tidied(b@),
            last == crate::media::after_slash(x@),
            rest == crate::media::after_slash(y@),
            last == x@.skip(from as int),
            rest == y@.skip(other as int),
            forall|i: int| 0 <= i < at ==> #[trigger] last[i] == rest[i],
        decreases x@.len() - from - at,
    {
        if x[from + at] != y[other + at] {
            proof {
                assert(last[at as int] != rest[at as int]);
            }
            return false;
        }
        at += 1;
    }
    proof {
        assert(last =~= rest);
    }
    x.truncate(from);
    y.truncate(other);
    same_chars(x, y)
}

/// Whether two paths are the same.
pub fn same_path(a: &str, b: &str) -> (same: bool)
    ensures
        same == is_same(a@, b@),
{
    same_chars(chars_of(a), chars_of(b))
}

/// A path is the same as itself.
pub proof fn path_is_itself(path: Seq<char>)
    ensures
        is_same(path, path),
    decreases path.len(),
{
    let x = tidied(path);
    if x.len() > 0 {
        tidied_is_shorter(path);
        let last = crate::media::after_slash(x);
        path_is_itself(x.take(x.len() - last.len()));
    }
}

/// The directory above a name in a directory is that directory, above a name at the root the
/// root, and above the root there is none; and the last component is the name.
pub proof fn parent_holds_the_name(directory: Seq<char>, name: Seq<char>)
    requires
        directory.len() > 0,
        !ends_idly(directory),
        name.len() > 0,
        forall|i: int| 0 <= i < name.len() ==> #[trigger] name[i] != '/',
        name != seq!['.'],
    ensures
        parent_of(directory + seq!['/'] + name) == Some(directory),
        parent_of(seq!['/'] + name) == Some(seq!['/']),
        parent_of(seq!['/']) is None,
        crate::media::file_name(directory + seq!['/'] + name) == name,
{
    let path = directory + seq!['/'] + name;
    let at = directory.len() as int;
    assert(path.last() == name.last());
    if ends_idly(path) {
        assert(path[path.len() - 2] == '/');
        if name.len() >= 2 {
            assert(path[path.len() - 2] == name[name.len() - 2]);
        } else {
            assert(name =~= seq!['.']);
        }
    }
    assert(tidied(path) == path);
    assert forall|i: int| at + 1 <= i < path.len() implies path[i] != '/' by {
        assert(path[i] == name[i - at - 1]);
    }
    crate::media::after_slash_is_suffix(path, at + 1);
    assert(path.skip(at + 1) =~= name);
    let above = path.take(path.len() - name.len());
    assert(above =~= directory.push('/'));
    assert(above.drop_last() =~= directory);
    assert(ends_idly(above));
    assert(tidied(above) == tidied(directory));
    assert(tidied(directory) == directory);

    let top = seq!['/'] + name;
    assert(top.last() == name.last());
    if ends_idly(top) {
        assert(top[top.len() - 2] == '/');
        if name.len() >= 2 {
            assert(top[top.len() - 2] == name[name.len() - 2]);
        } else {
            assert(name =~= seq!['.']);
        }
    }
    assert(tidied(top) == top);
    assert forall|i: int| 1 <= i < top.len() implies top[i] != '/' by {
        assert(top[i] == name[i - 1]);
    }
    crate::media::after_slash_is_suffix(top, 1);
    assert(top.skip(1) =~= name);
    let root = top.take(top.len() - name.len());
    assert(root =~= seq!['/']);
    assert(seq!['/'].drop_last() =~= Seq::<char>::empty());
    assert(tidied(Seq::<char>::empty()) == Seq::<char>::empty());
    assert(ends_idly(seq!['/']));
    assert(tidied(seq!['/']) == Seq::<char>::empty());
    assert(top[0] == '/');
}

/// Slashes and a lone dot at its end say nothing of a path, and two names in one directory
/// are the same only where they are one name.
pub proof fn idle_ends_say_nothing(path: Seq<char>, a: Seq<char>, b: Seq<char>)
    requires
        is_rooted(path),
    ensures
        is_same(path.push('/'), path),
        is_same(path + seq!['/', '.'], path),
        a.len() > 0 && b.len() > 0 && !ends_idly(path + seq!['/'] + a) && !ends_idly(
            path + seq!['/'] + b,
        ) && (forall|i: int| 0 <= i < a.len() ==> #[trigger] a[i] != '/') && (forall|i: int|
            0 <= i < b.len() ==> #[trigger] b[i] != '/') && is_same(
            path + seq!['/'] + a,
            path + seq!['/'] + b,
        ) ==> a == b,
{
    let slashed = path.push('/');
    assert(slashed.drop_last() =~= path);
    assert(tidied(slashed) == tidied(path));
    same_when_tidied(slashed, path);
    let dotted = path + seq!['/', '.'];
    assert(dotted.drop_last() =~= slashed);
    assert(ends_idly(dotted));
    assert(tidied(dotted) == tidied(path));
    same_when_tidied(dotted, path);
    if a.len() > 0 && b.len() > 0 && (forall|i: int| 0 <= i < a.len() ==> #[trigger] a[i] != '/') && (
    forall|i: int| 0 <= i < b.len() ==> #[trigger] b[i] != '/') {
        let at = path.len() as int;
        let x = path + seq!['/'] + a;
        let y = path + seq!['/'] + b;
        assert forall|i: int| at + 1 <= i < x.len() implies x[i] != '/' by {
            assert(x[i] == a[i - at - 1]);
        }
        assert forall|i: int| at + 1 <= i < y.len() implies y[i] != '/' by {
            assert(y[i] == b[i - at - 1]);
        }
        crate::media::after_slash_is_suffix(x, at + 1);
        crate::media::after_slash_is_suffix(y, at + 1);
        assert(x.skip(at + 1) =~= a);
        assert(y.skip(at + 1) =~= b);
    }
}

proof fn same_when_tidied(a: Seq<char>, b: Seq<char>)
    requires
        tidied(a) == tidied(b),
        is_rooted(a) == is_rooted(b),
    ensures
        is_same(a, b),
{
    let x = tidied(a);
    if x.len() > 0 {
        path_is_itself(x.take(x.len() - crate::media::after_slash(x).len()));
    }
}

} // verus!
