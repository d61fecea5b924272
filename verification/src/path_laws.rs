//! Where the parts of a path begin and end, said of places in its text.
use vstd::prelude::*;

use crate::paths::{joined, last_component, parent_path, without_trailing};

verus! {

proof fn lemma_cut(path: Seq<char>, count: int)
    requires
        0 <= count <= path.len(),
        path.len() > 0 ==> count > 0,
        forall|i: int|
            count <= i < path.len() ==> (#[trigger] path[i] == '/' || (path[i] == '.' && path[i - 1]
                == '/')),
        count > 1 ==> !(path[count - 1] == '/' || (path[count - 1] == '.' && path[count - 2]
            == '/')),
    ensures
        without_trailing(path) == path.take(count),
    decreases path.len(),
{
    if count == path.len() {
        assert(path.take(count) =~= path);
    } else {
        let fewer = path.drop_last();
        assert(path[path.len() - 1] == '/' || (path[path.len() - 1] == '.' && path[path.len() - 2]
            == '/'));
        assert forall|i: int| count <= i < fewer.len() implies (#[trigger] fewer[i] == '/' || (
        fewer[i] == '.' && fewer[i - 1] == '/')) by {
            assert(fewer[i] == path[i]);
            assert(fewer[i - 1] == path[i - 1]);
        }
        lemma_cut(fewer, count);
        assert(fewer.take(count) =~= path.take(count));
    }
}

proof fn lemma_cut_place(path: Seq<char>) -> (count: int)
    ensures
        0 <= count <= path.len(),
        path.len() > 0 ==> count > 0,
        forall|i: int|
            count <= i < path.len() ==> (#[trigger] path[i] == '/' || (path[i] == '.' && path[i - 1]
                == '/')),
        without_trailing(path) == path.take(count),
    decreases path.len(),
{
    if path.len() > 1 && (path.last() == '/' || (path.last() == '.' && path[path.len() - 2]
        == '/')) {
        let fewer = path.drop_last();
        let count = lemma_cut_place(fewer);
        assert forall|i: int| count <= i < path.len() implies (#[trigger] path[i] == '/' || (path[i]
            == '.' && path[i - 1] == '/')) by {
            if i < fewer.len() {
                assert(fewer[i] == path[i]);
                assert(fewer[i - 1] == path[i - 1]);
            }
        }
        assert(fewer.take(count) =~= path.take(count));
        count
    } else {
        assert(path.take(path.len() as int) =~= path);
        path.len() as int
    }
}

/// A path whose last name stands from `name_start` to `name_end`, with nothing but separators and
/// `.` components after it, lies in what its text holds before the separators and `.` components
/// that come before the name. The name is its last component, unless it is `.` or `..`.
pub proof fn law_parent_and_name(
    path: Seq<char>,
    parent_end: int,
    name_start: int,
    name_end: int,
)
    requires
        0 <= parent_end <= name_start < name_end <= path.len(),
        forall|i: int| name_start <= i < name_end ==> #[trigger] path[i] != '/',
        name_start > 0 ==> path[name_start - 1] == '/',
        name_start > 0 && name_end == name_start + 1 ==> path[name_start] != '.',
        forall|i: int|
            name_end <= i < path.len() ==> (#[trigger] path[i] == '/' || (path[i] == '.' && path[i
                - 1] == '/')),
        name_start > 0 ==> parent_end > 0,
        forall|i: int|
            parent_end <= i < name_start ==> (#[trigger] path[i] == '/' || (path[i] == '.'
                && path[i - 1] == '/')),
        parent_end > 1 ==> !(path[parent_end - 1] == '/' || (path[parent_end - 1] == '.'
            && path[parent_end - 2] == '/')),
    ensures
        parent_path(path) == Some(path.take(parent_end)),
        ({
            let name = path.subrange(name_start, name_end);
            last_component(path) == (if name == seq!['.'] || name == seq!['.', '.'] {
                None
            } else {
                Some(name)
            })
        }),
{
    assert(path[name_end - 1] != '/');
    if name_end > 1 && path[name_end - 1] == '.' && path[name_end - 2] == '/' {
        assert(name_end - 2 < name_start);
    }
    lemma_cut(path, name_end);
    let kept = path.take(name_end);
    assert(kept.last() != '/');
    kept.index_of_last_ensures('/');
    let name = path.subrange(name_start, name_end);
    if name_start > 0 {
        assert(kept[name_start - 1] == '/');
        assert(kept.index_of_last('/') == Some(name_start - 1)) by {
            let slash = kept.index_of_last('/')->0;
            assert(kept.contains('/'));
            if slash >= name_start {
                assert(path[slash] != '/');
            }
        }
        assert(kept.skip(name_start) =~= name);
        let above = kept.take(name_start);
        assert forall|i: int| parent_end <= i < above.len() implies (#[trigger] above[i] == '/' || (
        above[i] == '.' && above[i - 1] == '/')) by {
            assert(above[i] == path[i]);
            assert(above[i - 1] == path[i - 1]);
        }
        lemma_cut(above, parent_end);
        assert(above.take(parent_end) =~= path.take(parent_end));
    } else {
        assert(!kept.contains('/'));
        assert(kept =~= name);
        assert(path.take(parent_end) =~= Seq::empty());
    }
}

/// Nothing lies above the empty path and the root, however the root is written, and they have no
/// name. Every other path lies in something.
pub proof fn law_no_parent(path: Seq<char>)
    ensures
        parent_path(path) is None <==> (path.len() == 0 || (path[0] == '/' && forall|i: int|
            1 <= i < path.len() ==> (#[trigger] path[i] == '/' || (path[i] == '.' && path[i - 1]
                == '/')))),
        parent_path(path) is None ==> last_component(path) is None,
{
    let count = lemma_cut_place(path);
    let kept = without_trailing(path);
    kept.index_of_last_ensures('/');
    if path.len() > 0 && path[0] == '/' && forall|i: int|
        1 <= i < path.len() ==> (#[trigger] path[i] == '/' || (path[i] == '.' && path[i - 1]
            == '/')) {
        lemma_cut(path, 1);
        assert(kept =~= seq!['/']);
    }
    if kept == seq!['/'] {
        assert(kept[0] == '/' && kept.len() == 1);
        assert(count == 1);
        assert(path[0] == kept[0]);
        assert(kept.contains('/'));
        assert(kept.skip(1).len() == 0);
    }
}

/// A path that starts at the root stands for itself; any other is put behind the base, with one
/// separator between them if the base is not empty and does not end with one.
pub proof fn law_joined(base: Seq<char>, rest: Seq<char>)
    ensures
        rest.len() > 0 && rest[0] == '/' ==> joined(base, rest) == rest,
        !(rest.len() > 0 && rest[0] == '/') ==> {
            &&& base.len() == 0 ==> joined(base, rest) == rest
            &&& base.len() > 0 && base.last() == '/' ==> joined(base, rest) == base + rest
            &&& base.len() > 0 && base.last() != '/' ==> joined(base, rest) == base + seq!['/']
                + rest
        },
{
    if base.len() == 0 {
        assert(base + rest =~= rest);
    }
}

} // verus!
