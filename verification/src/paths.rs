//! Pure string rules on paths — base name, parent directory, extension —
//! and the interpreter inferred from an extension.

use vstd::prelude::*;
use vstd::string::{StrSliceExecFns, StringExecFns};

verus! {

/// The suffix after the last occurrence of `c`; the whole of `s` when `c`
/// does not occur.
pub open spec fn after_last(s: Seq<char>, c: char) -> Seq<char>
    decreases s.len(),
{
    if s.len() == 0 {
        s
    } else if s.last() == c {
        Seq::empty()
    } else {
        after_last(s.drop_last(), c).push(s.last())
    }
}

/// What stands before the last occurrence of `c`, exclusive; empty when
/// `c` does not occur.
pub open spec fn before_last(s: Seq<char>, c: char) -> Seq<char>
    decreases s.len(),
{
    if s.len() == 0 {
        Seq::empty()
    } else if s.last() == c {
        s.drop_last()
    } else {
        before_last(s.drop_last(), c)
    }
}

/// The base name of a path: what follows its last slash.
pub open spec fn spec_basename(path: Seq<char>) -> Seq<char> {
    after_last(path, '/')
}

/// The parent of a path: what stands before its last slash; empty for a
/// bare name.
pub open spec fn spec_parent(path: Seq<char>) -> Seq<char> {
    before_last(path, '/')
}

/// The extension of the path's base name: what follows the base name's
/// last dot, provided a dot stands after the name's first character. A
/// name without such a dot — in particular a hidden file whose only dot
/// opens it — has none.
pub open spec fn spec_extension(path: Seq<char>) -> Option<Seq<char>> {
    let name = spec_basename(path);
    if exists|i: int| 1 <= i < name.len() && name[i] == '.' {
        Some(after_last(name, '.'))
    } else {
        None
    }
}

/// When the last occurrence of `c` stands at `i`, the suffix after it and
/// the prefix before it are the ranges around `i`.
proof fn lemma_after_last_split(s: Seq<char>, c: char, i: int)
    requires
        0 <= i < s.len(),
        s[i] == c,
        forall|j: int| i < j < s.len() ==> s[j] != c,
    ensures
        after_last(s, c) == s.skip(i + 1),
        before_last(s, c) == s.take(i),
    decreases s.len(),
{
    if i == s.len() - 1 {
        assert(s.last() == c);
        assert(after_last(s, c) =~= s.skip(i + 1));
        assert(s.drop_last() =~= s.take(i));
    } else {
        assert(s.last() != c);
        assert forall|j: int| i < j < s.drop_last().len() implies #[trigger] s.drop_last()[j]
            != c by {
            assert(s.drop_last()[j] == s[j]);
        }
        assert(s.drop_last()[i] == s[i]);
        lemma_after_last_split(s.drop_last(), c, i);
        assert(s.drop_last().skip(i + 1).push(s.last()) =~= s.skip(i + 1));
        assert(s.drop_last().take(i) =~= s.take(i));
    }
}

/// When `c` does not occur in `s`, the suffix after it is all of `s` and
/// the prefix before it is empty.
proof fn lemma_after_last_absent(s: Seq<char>, c: char)
    requires
        forall|j: int| 0 <= j < s.len() ==> s[j] != c,
    ensures
        after_last(s, c) == s,
        before_last(s, c) == Seq::<char>::empty(),
    decreases s.len(),
{
    if s.len() == 0 {
        assert(after_last(s, c) =~= s);
    } else {
        assert(s.last() == s[s.len() - 1]);
        assert forall|j: int| 0 <= j < s.drop_last().len() implies #[trigger] s.drop_last()[j]
            != c by {
            assert(s.drop_last()[j] == s[j]);
        }
        lemma_after_last_absent(s.drop_last(), c);
        assert(s.drop_last().push(s.last()) =~= s);
    }
}

/// Position of the last occurrence of `c` in `s`, if any.
fn last_index_of(s: &str, c: char) -> (r: Option<usize>)
    ensures
        match r {
            Some(i) => 0 <= i < s@.len() && s@[i as int] == c && (forall|j: int|
                i < j < s@.len() ==> s@[j] != c),
            None => forall|j: int| 0 <= j < s@.len() ==> s@[j] != c,
        },
{
    let n = s.unicode_len();
    let mut i = n;
    while i > 0
        invariant
            i <= n,
            n == s@.len(),
            forall|j: int| i <= j < n ==> s@[j] != c,
        decreases i,
    {
        let ch = s.get_char(i - 1);
        if ch == c {
            return Some(i - 1);
        }
        i = i - 1;
    }
    None
}

/// The base name of a path: what follows its last slash.
pub fn basename(path: &str) -> (r: String)
    ensures
        r@ == spec_basename(path@),
{
    let n = path.unicode_len();
    match last_index_of(path, '/') {
        Some(i) => {
            proof {
                lemma_after_last_split(path@, '/', i as int);
            }
            path.substring_char(i + 1, n).to_owned()
        },
        None => {
            proof {
                lemma_after_last_absent(path@, '/');
            }
            path.to_owned()
        },
    }
}

/// The parent of a path: what stands before its last slash; the empty
/// string for a bare name.
pub fn parent_dir(path: &str) -> (r: String)
    ensures
        r@ == spec_parent(path@),
{
    match last_index_of(path, '/') {
        Some(i) => {
            proof {
                lemma_after_last_split(path@, '/', i as int);
            }
            path.substring_char(0, i).to_owned()
        },
        None => {
            proof {
                lemma_after_last_absent(path@, '/');
            }
            String::new()
        },
    }
}

/// The extension of the path's base name, when the name has one.
pub fn extension(path: &str) -> (r: Option<String>)
    ensures
        r.deep_view() == spec_extension(path@),
{
    let name = basename(path);
    let name_str = name.as_str();
    let n = name_str.unicode_len();
    match last_index_of(name_str, '.') {
        Some(i) => {
            if i >= 1 {
                proof {
                    lemma_after_last_split(name@, '.', i as int);
                    assert(1 <= i < name@.len() && name@[i as int] == '.');
                }
                Some(name_str.substring_char(i + 1, n).to_owned())
            } else {
                proof {
                    assert forall|k: int| 1 <= k < name@.len() implies name@[k] != '.' by {}
                }
                None
            }
        },
        None => {
            None
        },
    }
}

/// Character-wise string equality.
pub fn str_eq(a: &str, b: &str) -> (r: bool)
    ensures
        r == (a@ == b@),
{
    let n = a.unicode_len();
    let m = b.unicode_len();
    if n != m {
        return false;
    }
    let mut i: usize = 0;
    while i < n
        invariant
            i <= n,
            n == a@.len(),
            n == b@.len(),
            forall|j: int| 0 <= j < i ==> a@[j] == b@[j],
        decreases n - i,
    {
        if a.get_char(i) != b.get_char(i) {
            return false;
        }
        i = i + 1;
    }
    proof {
        assert(a@ =~= b@);
    }
    true
}

/// The default interpreter for a file extension: the node runtime for
/// `js`, `python3` for `py`; any other extension gets none and the file
/// runs directly.
pub open spec fn spec_interpreter_for_ext(ext: Seq<char>) -> Option<Seq<char>> {
    if ext == "js"@ {
        Some("node"@)
    } else if ext == "py"@ {
        Some("python3"@)
    } else {
        None
    }
}

/// The default interpreter for a file extension.
pub fn interpreter_for_extension(ext: &str) -> (r: Option<String>)
    ensures
        r.deep_view() == spec_interpreter_for_ext(ext@),
{
    if str_eq(ext, "js") {
        Some("node".to_owned())
    } else if str_eq(ext, "py") {
        Some("python3".to_owned())
    } else {
        None
    }
}

} // verus!
