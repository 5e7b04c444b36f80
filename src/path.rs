//! Lexical handling of slash-separated paths.

use vstd::prelude::*;
use vstd::string::StringExecFns;

verus! {

/// True when the path starts at the root.
pub open spec fn is_absolute_spec(s: Seq<char>) -> bool {
    s.len() > 0 && s[0] == '/'
}

/// Final component of `s`, where `tail` (holding no separator) is the text
/// already scanned to the right of `s`. Separators and `.` components at the
/// end are skipped; a trailing `..` or an empty remainder has no name.
pub open spec fn final_component(s: Seq<char>, tail: Seq<char>) -> Option<Seq<char>>
    decreases s.len(),
{
    if s.len() > 0 && s.last() != '/' {
        final_component(s.drop_last(), seq![s.last()] + tail)
    } else if tail.len() == 0 || tail == seq!['.'] {
        if s.len() == 0 {
            None
        } else {
            final_component(s.drop_last(), Seq::empty())
        }
    } else if tail == seq!['.', '.'] {
        None
    } else {
        Some(tail)
    }
}

/// The last named component of a path, as `Path::file_name` reads it.
pub open spec fn file_name_spec(s: Seq<char>) -> Option<Seq<char>> {
    final_component(s, Seq::empty())
}

/// `p` appended to `base` as `PathBuf::push` does it: an absolute `p`
/// replaces `base`, otherwise a separator goes between them when `base` is
/// non-empty and does not already end with one.
pub open spec fn joined(base: Seq<char>, p: Seq<char>) -> Seq<char> {
    if is_absolute_spec(p) {
        p
    } else if base.len() == 0 || base.last() == '/' {
        base + p
    } else {
        base + seq!['/'] + p
    }
}

/// Returns the last named component of `path`, or `None` when it has none
/// (empty, the root, or ending in `..`).
pub fn file_name(path: &str) -> (r: Option<String>)
    ensures
        r is None <==> file_name_spec(path@) is None,
        r matches Some(n) ==> file_name_spec(path@) == Some(n@),
{
    let n = path.unicode_len();
    let mut i: usize = n;
    let mut end: usize = n;
    assert(path@.subrange(0, n as int) =~= path@);
    assert(path@.subrange(n as int, n as int) =~= Seq::<char>::empty());
    loop
        invariant
            i <= end <= n,
            n == path@.len(),
            file_name_spec(path@) == final_component(
                path@.subrange(0, i as int),
                path@.subrange(i as int, end as int),
            ),
        decreases i,
    {
        let ghost s = path@.subrange(0, i as int);
        if i > 0 && path.get_char(i - 1) != '/' {
            assert(s.drop_last() =~= path@.subrange(0, i - 1));
            assert(seq![s.last()] + path@.subrange(i as int, end as int) =~= path@.subrange(
                i - 1,
                end as int,
            ));
            i = i - 1;
        } else {
            let ghost tail = path@.subrange(i as int, end as int);
            let len = end - i;
            if len == 0 || (len == 1 && path.get_char(i) == '.') {
                if len == 1 {
                    assert(tail =~= seq!['.']);
                }
                if i == 0 {
                    return None;
                }
                assert(s.drop_last() =~= path@.subrange(0, i - 1));
                assert(path@.subrange(i - 1, i - 1) =~= Seq::<char>::empty());
                i = i - 1;
                end = i;
            } else if len == 2 && path.get_char(i) == '.' && path.get_char(i + 1) == '.' {
                assert(tail =~= seq!['.', '.']);
                return None;
            } else {
                proof {
                    if len == 1 {
                        assert(tail != seq!['.']) by {
                            assert(tail[0] != seq!['.'][0]);
                        }
                    }
                    if len == 2 {
                        assert(tail != seq!['.', '.']) by {
                            if tail[0] == '.' {
                                assert(tail[1] != seq!['.', '.'][1]);
                            } else {
                                assert(tail[0] != seq!['.', '.'][0]);
                            }
                        }
                    }
                }
                let seg = path.substring_char(i, end);
                return Some(seg.to_owned());
            }
        }
    }
}

/// Appends `p` to `base` as `PathBuf::push` does.
pub fn join(base: &str, p: &str) -> (r: String)
    ensures
        r@ == joined(base@, p@),
{
    if p.unicode_len() > 0 && p.get_char(0) == '/' {
        return p.to_owned();
    }
    let mut r = base.to_owned();
    let bn = base.unicode_len();
    if bn > 0 && base.get_char(bn - 1) != '/' {
        proof {
            reveal_strlit("/");
        }
        r.append("/");
    }
    r.append(p);
    r
}

/// True when some component of `s` is `.` or `..`.
pub open spec fn has_dot_component(s: Seq<char>) -> bool {
    exists|i: int, j: int|
        0 <= i < j <= s.len() && (i == 0 || s[i - 1] == '/') && (j == s.len() || s[j] == '/') && (
        s.subrange(i, j) == seq!['.'] || s.subrange(i, j) == seq!['.', '.'])
}

/// What lexical cleanup makes of a path.
pub uninterp spec fn cleaned(s: Seq<char>) -> Seq<char>;

/// Relies on `path_clean::clean`: collapses `.` components, resolves `..`
/// against the component before it, and removes repeated separators, without
/// reading the file system. Its source keeps the root of an absolute path,
/// skips every `.`, and drops a `..` that follows the root or pops the
/// normal component before it; so from an absolute path it emits the root
/// and normal components only, and the result holds no `.` or `..`.
#[verifier::external_body]
fn clean(s: &str) -> (r: String)
    ensures
        r@ == cleaned(s@),
        is_absolute_spec(s@) ==> is_absolute_spec(r@) && !has_dot_component(r@),
{
    path_clean::clean(s).to_string_lossy().into_owned()
}

/// The absolute, lexically clean form of `path`: taken as it is when absolute,
/// joined onto the working directory `cwd` otherwise, then cleaned.
pub fn absolute_path(path: &str, cwd: &str) -> (r: String)
    ensures
        r@ == cleaned(joined(cwd@, path@)),
        is_absolute_spec(path@) || is_absolute_spec(cwd@) ==> is_absolute_spec(r@)
            && !has_dot_component(r@),
{
    let full = join(cwd, path);
    clean(full.as_str())
}

} // verus!
