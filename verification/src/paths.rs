//! Lexical path manipulation over plain strings.
//!
//! Paths are `/`-separated character strings, as the directory walk and
//! the translator use them: taking the parent directory, appending a
//! child component, and resolving a relative path against a base
//! directory (with `.` and `..` handled lexically, so that `/repo/pkg`
//! joined with `../foo` is `/repo/foo`).

use vstd::prelude::*;

verus! {

/// The index of the last `/` in `s`, or `-1` when there is none.
pub open spec fn last_slash_index(s: Seq<char>) -> int
    decreases s.len(),
{
    if s.len() == 0 {
        -1
    } else if s[s.len() - 1] == '/' {
        s.len() - 1
    } else {
        last_slash_index(s.subrange(0, s.len() - 1))
    }
}

/// The parent directory of a normalized path: the text before the last
/// `/`, the root itself when that slash is leading, and nothing for the
/// root or for a single relative component.
pub open spec fn parent_dir(s: Seq<char>) -> Option<Seq<char>> {
    let i = last_slash_index(s);
    if s.len() <= 1 {
        None
    } else if i < 0 {
        None
    } else if i == 0 {
        Some(seq!['/'])
    } else {
        Some(s.subrange(0, i))
    }
}

/// `dir` with the child component `name` appended, inserting a `/`
/// separator unless `dir` is the root.
pub open spec fn joined_child(dir: Seq<char>, name: Seq<char>) -> Seq<char> {
    if dir == seq!['/'] {
        dir + name
    } else {
        dir + seq!['/'] + name
    }
}

/// The index of the first `/` in `s`, or `s.len()` when there is none.
pub open spec fn first_slash_index(s: Seq<char>) -> int
    decreases s.len(),
{
    if s.len() == 0 {
        0
    } else if s[0] == '/' {
        0
    } else {
        1 + first_slash_index(s.subrange(1, s.len() as int))
    }
}

/// One step of relative-path resolution: an empty component or `.`
/// keeps the directory, `..` moves to the parent where one exists, and
/// any other component is appended as a child.
pub open spec fn resolve_step(dir: Seq<char>, comp: Seq<char>) -> Seq<char> {
    if comp.len() == 0 || comp == seq!['.'] {
        dir
    } else if comp == seq!['.', '.'] {
        match parent_dir(dir) {
            Some(p) => p,
            None => dir,
        }
    } else {
        joined_child(dir, comp)
    }
}

/// Resolves the `/`-separated components of `rel` against `dir`, one
/// `resolve_step` per component, left to right.
pub open spec fn resolve_rel(dir: Seq<char>, rel: Seq<char>) -> Seq<char>
    decreases rel.len(),
{
    if rel.len() == 0 {
        dir
    } else {
        let i = first_slash_index(rel);
        if 0 <= i < rel.len() {
            resolve_rel(resolve_step(dir, rel.subrange(0, i)), rel.subrange(i + 1, rel.len() as int))
        } else {
            resolve_step(dir, rel)
        }
    }
}

/// The join of a base directory and a dependency's path field: an
/// absolute path replaces the base, and a relative path is resolved
/// against it component by component.
pub open spec fn joined_path(dir: Seq<char>, rel: Seq<char>) -> Seq<char> {
    if rel.len() > 0 && rel[0] == '/' {
        rel
    } else {
        resolve_rel(dir, rel)
    }
}

/// Finds the last `/` in `s`, scanning from the end.
fn last_slash(s: &str) -> (r: Option<usize>)
    ensures
        match r {
            Option::None => last_slash_index(s@) == -1,
            Option::Some(i) => i == last_slash_index(s@) && i < s@.len(),
        },
    decreases s@.len(),
{
    let len = s.unicode_len();
    if len == 0 {
        return Option::None;
    }
    if s.get_char(len - 1) == '/' {
        return Option::Some(len - 1);
    }
    let prefix = s.substring_char(0, len - 1);
    last_slash(prefix)
}

/// Returns the parent directory of a normalized path, or nothing when
/// the path is the root or has no parent component.
pub fn parent_of_path(s: &str) -> (r: Option<String>)
    ensures
        match r {
            Option::None => parent_dir(s@) is None,
            Option::Some(p) => parent_dir(s@) == Some(p@),
        },
{
    let len = s.unicode_len();
    if len <= 1 {
        return Option::None;
    }
    match last_slash(s) {
        Option::None => Option::None,
        Option::Some(i) => {
            if i == 0 {
                let r = String::from_str("/");
                proof {
                    reveal_strlit("/");
                    assert(r@ =~= seq!['/']);
                }
                Option::Some(r)
            } else {
                Option::Some(String::from_str(s.substring_char(0, i)))
            }
        },
    }
}

/// Appends the child component `name` to the directory `dir`, with a
/// `/` separator unless `dir` is the root.
pub fn join_child(dir: &str, name: &str) -> (r: String)
    ensures
        r@ == joined_child(dir@, name@),
{
    let dlen = dir.unicode_len();
    let mut r = String::from_str(dir);
    if dlen == 1 && dir.get_char(0) == '/' {
        proof {
            assert(dir@ =~= seq!['/']);
        }
        r.append(name);
        r
    } else {
        proof {
            reveal_strlit("/");
            assert(dir@ != seq!['/']);
        }
        r.append("/");
        r.append(name);
        proof {
            assert(r@ =~= dir@ + seq!['/'] + name@);
        }
        r
    }
}

/// Finds the first `/` in `s`, or returns the length when none occurs.
fn first_slash(s: &str) -> (r: usize)
    ensures
        r == first_slash_index(s@),
        r <= s@.len(),
    decreases s@.len(),
{
    let len = s.unicode_len();
    if len == 0 {
        return 0;
    }
    if s.get_char(0) == '/' {
        return 0;
    }
    let rest = s.substring_char(1, len);
    let i = first_slash(rest);
    1 + i
}

/// One resolution step on strings: skips empty and `.` components,
/// moves to the parent on `..`, and appends any other component.
fn resolve_step_str(dir: &str, comp: &str) -> (r: String)
    ensures
        r@ == resolve_step(dir@, comp@),
{
    let clen = comp.unicode_len();
    if clen == 0 {
        return String::from_str(dir);
    }
    if clen == 1 && comp.get_char(0) == '.' {
        proof {
            assert(comp@ =~= seq!['.']);
        }
        return String::from_str(dir);
    }
    if clen == 2 && comp.get_char(0) == '.' && comp.get_char(1) == '.' {
        proof {
            assert(comp@ =~= seq!['.', '.']);
        }
        match parent_of_path(dir) {
            Option::Some(p) => p,
            Option::None => String::from_str(dir),
        }
    } else {
        proof {
            assert(comp@ != seq!['.']);
            assert(comp@ != seq!['.', '.']);
        }
        join_child(dir, comp)
    }
}

/// Resolves each `/`-separated component of `rel` against `dir` in
/// turn.
fn resolve_rel_str(dir: String, rel: &str) -> (r: String)
    ensures
        r@ == resolve_rel(dir@, rel@),
    decreases rel@.len(),
{
    let rlen = rel.unicode_len();
    if rlen == 0 {
        return dir;
    }
    let i = first_slash(rel);
    if i < rlen {
        let comp = rel.substring_char(0, i);
        let rest = rel.substring_char(i + 1, rlen);
        let next = resolve_step_str(dir.as_str(), comp);
        resolve_rel_str(next, rest)
    } else {
        resolve_step_str(dir.as_str(), rel)
    }
}

/// Joins a dependency's path field onto the owning manifest's
/// directory: an absolute path stands alone, a relative one is
/// resolved lexically against the directory.
pub fn join_rel(dir: &str, rel: &str) -> (r: String)
    ensures
        r@ == joined_path(dir@, rel@),
{
    let rlen = rel.unicode_len();
    if rlen > 0 && rel.get_char(0) == '/' {
        String::from_str(rel)
    } else {
        resolve_rel_str(String::from_str(dir), rel)
    }
}

} // verus!
