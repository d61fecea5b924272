//! Paths as text. The separator is `/`, as on every system that a WebAssembly extension sees.
use vstd::prelude::*;

use crate::text::{chars_of, find_last};

verus! {

/// `path` without the separators and `.` components that it ends with. A separator or a `.` that
/// is all there is stays.
pub open spec fn without_trailing(path: Seq<char>) -> Seq<char>
    decreases path.len(),
{
    if path.len() > 1 && (path.last() == '/' || (path.last() == '.' && path[path.len() - 2]
        == '/')) {
        without_trailing(path.drop_last())
    } else {
        path
    }
}

/// The path without its last component: the directory that it lies in. The empty path and the
/// root lie in none.
pub open spec fn parent_path(path: Seq<char>) -> Option<Seq<char>> {
    let kept = without_trailing(path);
    if kept.len() == 0 || kept == seq!['/'] {
        None
    } else {
        match kept.index_of_last('/') {
            Some(slash) => Some(without_trailing(kept.take(slash + 1))),
            None => Some(Seq::empty()),
        }
    }
}

/// The last component of the path, if it names a file or a directory.
pub open spec fn last_component(path: Seq<char>) -> Option<Seq<char>> {
    let kept = without_trailing(path);
    let last = match kept.index_of_last('/') {
        Some(slash) => kept.skip(slash + 1),
        None => kept,
    };
    if last.len() == 0 || last == seq!['.'] || last == seq!['.', '.'] {
        None
    } else {
        Some(last)
    }
}

/// `rest` as seen from `base`. An absolute path is the same from everywhere.
pub open spec fn joined(base: Seq<char>, rest: Seq<char>) -> Seq<char> {
    if rest.len() > 0 && rest[0] == '/' {
        rest
    } else if base.len() > 0 && base.last() != '/' {
        base + seq!['/'] + rest
    } else {
        base + rest
    }
}

/// The number of characters that are left of the first `len` of `chars` once the separators and
/// `.` components at their end are gone.
fn trailing_cut(chars: &Vec<char>, len: usize) -> (kept: usize)
    requires
        len <= chars.len(),
    ensures
        kept <= len,
        chars@.take(kept as int) == without_trailing(chars@.take(len as int)),
{
    let mut kept: usize = len;
    while kept > 1 && (chars[kept - 1] == '/' || (chars[kept - 1] == '.' && chars[kept - 2]
        == '/'))
        invariant
            kept <= len <= chars.len(),
            without_trailing(chars@.take(kept as int)) == without_trailing(
                chars@.take(len as int),
            ),
        ensures
            kept <= len <= chars.len(),
            without_trailing(chars@.take(kept as int)) == without_trailing(
                chars@.take(len as int),
            ),
            !(kept > 1 && (chars@[kept - 1] == '/' || (chars@[kept - 1] == '.' && chars@[kept - 2]
                == '/'))),
        decreases kept,
    {
        assert(chars@.take(kept as int).drop_last() =~= chars@.take(kept - 1));
        kept -= 1;
    }
    kept
}

/// The directory that `path` lies in.
pub fn parent(path: &str) -> (found: Option<String>)
    ensures
        found.deep_view() == parent_path(path@),
{
    let mut chars = chars_of(path);
    let len: usize = chars.len();
    assert(chars@.take(len as int) =~= chars@);
    let kept = trailing_cut(&chars, len);
    chars.truncate(kept);
    let ghost whole = chars@;
    assert(whole == without_trailing(path@));
    if kept == 0 {
        return None;
    }
    if kept == 1 && chars[0] == '/' {
        assert(whole =~= seq!['/']);
        return None;
    }
    proof {
        if whole == seq!['/'] {
            assert(whole[0] == '/');
        }
        whole.index_of_last_ensures('/');
    }
    match find_last(&chars, '/') {
        Some(slash) => {
            let end = trailing_cut(&chars, slash + 1);
            assert(path@.take(end as int) =~= whole.take(end as int));
            let text = path.substring_char(0, end);
            assert(text@ =~= path@.take(end as int));
            Some(text.to_string())
        },
        None => Some(String::new()),
    }
}

/// The name of the file or directory that `path` leads to.
pub fn file_name(path: &str) -> (found: Option<String>)
    ensures
        found.deep_view() == last_component(path@),
{
    let mut chars = chars_of(path);
    let len: usize = chars.len();
    assert(chars@.take(len as int) =~= chars@);
    let kept = trailing_cut(&chars, len);
    chars.truncate(kept);
    let ghost whole = chars@;
    assert(whole == without_trailing(path@));
    proof {
        whole.index_of_last_ensures('/');
    }
    let start: usize = match find_last(&chars, '/') {
        Some(slash) => slash + 1,
        None => 0,
    };
    let ghost last = match whole.index_of_last('/') {
        Some(slash) => whole.skip(slash + 1),
        None => whole,
    };
    assert(last =~= whole.skip(start as int));
    if start == kept {
        return None;
    }
    if kept - start == 1 && chars[start] == '.' {
        assert(last =~= seq!['.']);
        return None;
    }
    if kept - start == 2 && chars[start] == '.' && chars[start + 1] == '.' {
        assert(last =~= seq!['.', '.']);
        return None;
    }
    proof {
        if last == seq!['.'] {
            assert(last[0] == '.' && last.len() == 1);
        }
        if last == seq!['.', '.'] {
            assert(last[0] == '.' && last[1] == '.' && last.len() == 2);
        }
    }
    let text = path.substring_char(start, kept);
    assert(text@ =~= last);
    Some(text.to_string())
}

/// `rest` as seen from `base`.
pub fn join(base: &str, rest: &str) -> (path: String)
    ensures
        path@ == joined(base@, rest@),
{
    let base_chars = chars_of(base);
    let rest_chars = chars_of(rest);
    if rest_chars.len() > 0 && rest_chars[0] == '/' {
        rest.to_string()
    } else if base_chars.len() > 0 && base_chars[base_chars.len() - 1] != '/' {
        proof {
            reveal_strlit("/");
            assert("/"@ =~= seq!['/']);
        }
        base.to_string().concat("/").concat(rest)
    } else {
        base.to_string().concat(rest)
    }
}

/// A separator at the end of a path that is not empty makes no difference.
proof fn lemma_trailing_separator(path: Seq<char>)
    requires
        path.len() > 0,
    ensures
        without_trailing(path + seq!['/']) == without_trailing(path),
{
    assert((path + seq!['/']).drop_last() =~= path);
}

/// What lies in the directory `base` under a name has that directory for its parent, but for the
/// separators and `.` components that the text of `base` may end with, and that name for its last
/// component.
pub proof fn law_parent_of_joined(base: Seq<char>, name: Seq<char>)
    requires
        name.len() > 0,
        !name.contains('/'),
        name != seq!['.'],
    ensures
        parent_path(joined(base, name)) == Some(without_trailing(base)),
        name != seq!['.', '.'] ==> last_component(joined(base, name)) == Some(name),
{
    let path = joined(base, name);
    assert(name[0] != '/') by {
        assert(name.contains(name[0]));
    }
    assert(name.last() != '/') by {
        assert(name.contains(name.last()));
    }
    assert(path.last() == name.last());
    if name.len() == 1 {
        assert(name =~= seq![name[0]]);
        assert(path.last() != '.');
    } else {
        assert(path[path.len() - 2] == name[name.len() - 2]);
        assert(name.contains(name[name.len() - 2]));
    }
    assert(without_trailing(path) == path);
    assert(path != seq!['/']) by {
        assert(path.last() != '/');
    }
    path.index_of_last_ensures('/');
    let start = path.len() - name.len();
    assert(path.skip(start) =~= name);
    assert forall|i: int| start <= i < path.len() implies path[i] != '/' by {
        assert(path[i] == name[i - start]);
        assert(name.contains(name[i - start]));
    }
    if start == 0 {
        assert(base =~= Seq::empty());
        assert(path =~= name);
    } else {
        assert(path[start - 1] == '/');
        assert(path.index_of_last('/') == Some(start - 1));
        if base.last() == '/' {
            assert(path.take(start) =~= base);
        } else {
            assert(path.take(start) =~= base + seq!['/']);
            lemma_trailing_separator(base);
        }
    }
}

} // verus!
