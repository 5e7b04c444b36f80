//! The plugin source skeleton and the type name it is filled with.

use crate::error::NewError;
use convert_case::{Case, Casing};
use vstd::prelude::*;
use vstd::string::StringExecFns;

verus! {

/// The token that stands for the plugin's type name in the skeleton.
pub const PLACEHOLDER: &'static str = "$plugin_name";

/// Appended to the Pascal-case project name to form the type name.
pub const PLUGIN_SUFFIX: &'static str = "Plugin";

/// The plugin entry-point skeleton: a type implementing the plugin lifecycle
/// with empty `enable` and `disable` bodies.
pub const LIB_RS_FILE_TEXT: &'static str = "use quill::{Game, Plugin, Setup};\n\nquill::plugin!($plugin_name);\n\nstruct $plugin_name {}\n\nimpl Plugin for $plugin_name {\n    fn enable(_game: &mut Game, _setup: &mut Setup<Self>) -> Self {\n        $plugin_name {}\n    }\n\n    fn disable(self, _game: &mut Game) {}\n}\n";

/// `t` with every occurrence of `p`, scanned from the left, replaced by `w`.
pub open spec fn replaced(t: Seq<char>, p: Seq<char>, w: Seq<char>) -> Seq<char>
    decreases t.len(),
{
    if p.len() == 0 || t.len() < p.len() {
        t
    } else if t.take(p.len() as int) == p {
        w + replaced(t.skip(p.len() as int), p, w)
    } else {
        seq![t[0]] + replaced(t.skip(1), p, w)
    }
}

/// How many occurrences of `p` the left-to-right scan of `replaced` finds in `t`.
pub open spec fn occurrences(t: Seq<char>, p: Seq<char>) -> nat
    decreases t.len(),
{
    if p.len() == 0 || t.len() < p.len() {
        0
    } else if t.take(p.len() as int) == p {
        1 + occurrences(t.skip(p.len() as int), p)
    } else {
        occurrences(t.skip(1), p)
    }
}

/// True when `p` occurs in `t` at position `i`.
pub open spec fn occurs_at(t: Seq<char>, p: Seq<char>, i: int) -> bool {
    0 <= i && i + p.len() <= t.len() && t.subrange(i, i + p.len()) == p
}

/// True when `c` is nowhere in `s`.
pub open spec fn lacks(s: Seq<char>, c: char) -> bool {
    forall|i: int| 0 <= i < s.len() ==> s[i] != c
}

/// What Pascal-case conversion makes of a name.
pub uninterp spec fn pascal_of(s: Seq<char>) -> Seq<char>;

/// Relies on `convert_case`'s `Casing::to_case` with `Case::Pascal`: splits
/// the name into words at the default boundaries (underscore, hyphen, space,
/// case and digit changes), capitalizes each word and concatenates them.
#[verifier::external_body]
fn to_pascal_case(s: &str) -> (r: String)
    ensures
        r@ == pascal_of(s@),
{
    s.to_case(Case::Pascal)
}

/// Whether a character counts as alphanumeric.
pub uninterp spec fn alphanumeric(c: char) -> bool;

/// Relies on `char::is_alphanumeric`: alphabetic or numeric in Unicode's sense.
#[verifier::external_body]
fn is_alphanumeric(c: char) -> (r: bool)
    ensures
        r == alphanumeric(c),
{
    c.is_alphanumeric()
}

/// True when `s` holds at least one alphanumeric character.
pub open spec fn has_alphanumeric(s: Seq<char>) -> bool {
    exists|i: int| 0 <= i < s.len() && alphanumeric(s[i])
}

/// Replaces every occurrence of the non-empty `pat` in `text` by `with`,
/// scanning from the left.
pub fn replace_all(text: &str, pat: &str, with: &str) -> (r: String)
    requires
        pat@.len() > 0,
    ensures
        r@ == replaced(text@, pat@, with@),
{
    let n = text.unicode_len();
    let m = pat.unicode_len();
    let mut out = String::new();
    let mut i: usize = 0;
    assert(text@.skip(0) =~= text@);
    while i < n
        invariant
            i <= n,
            n == text@.len(),
            m == pat@.len(),
            m > 0,
            out@ + replaced(text@.skip(i as int), pat@, with@) == replaced(text@, pat@, with@),
        decreases n - i,
    {
        let ghost rest = text@.skip(i as int);
        if n - i < m {
            assert(replaced(rest, pat@, with@) == rest);
            let tail = text.substring_char(i, n);
            assert(tail@ =~= rest);
            out.append(tail);
            i = n;
        } else {
            let mut j: usize = 0;
            let mut found = true;
            while j < m
                invariant
                    j <= m,
                    i + m <= n,
                    n == text@.len(),
                    m == pat@.len(),
                    rest == text@.skip(i as int),
                    found <==> forall|k: int| 0 <= k < j ==> rest[k] == pat@[k],
                decreases m - j,
            {
                assert(rest[j as int] == text@[i + j]);
                if text.get_char(i + j) != pat.get_char(j) {
                    found = false;
                }
                j = j + 1;
            }
            if found {
                assert(rest.take(m as int) =~= pat@);
                assert(rest.skip(m as int) =~= text@.skip((i + m) as int));
                out.append(with);
                i = i + m;
            } else {
                assert(rest.take(m as int) != pat@) by {
                    let k = choose|k: int| 0 <= k < m && rest[k] != pat@[k];
                    assert(rest.take(m as int)[k] != pat@[k]);
                }
                let c = text.substring_char(i, i + 1);
                assert(c@ =~= seq![rest[0]]);
                assert(rest.skip(1) =~= text@.skip((i + 1) as int));
                out.append(c);
                i = i + 1;
            }
        }
        assert(out@ + replaced(text@.skip(i as int), pat@, with@) =~= replaced(text@, pat@, with@));
    }
    assert(text@.skip(n as int) =~= Seq::<char>::empty());
    out
}

/// The plugin type name built from an already Pascal-cased project name.
pub fn plugin_name_from_pascal(pascal: &str) -> (r: String)
    ensures
        r@ == pascal@ + PLUGIN_SUFFIX@,
{
    let mut r = pascal.to_owned();
    r.append(PLUGIN_SUFFIX);
    r
}

/// The plugin type name of a project: its name in Pascal case followed by
/// `Plugin`. A name without any alphanumeric character is refused.
pub fn plugin_name(name: &str) -> (r: Result<String, NewError>)
    ensures
        r is Err <==> !has_alphanumeric(name@),
        r is Err ==> r == Err::<String, NewError>(NewError::InvalidName),
        r matches Ok(t) ==> t@ == pascal_of(name@) + PLUGIN_SUFFIX@,
{
    let n = name.unicode_len();
    let mut i: usize = 0;
    while i < n
        invariant
            i <= n,
            n == name@.len(),
            forall|k: int| 0 <= k < i ==> !alphanumeric(name@[k]),
        decreases n - i,
    {
        if is_alphanumeric(name.get_char(i)) {
            let pascal = to_pascal_case(name);
            return Ok(plugin_name_from_pascal(pascal.as_str()));
        }
        i = i + 1;
    }
    Err(NewError::InvalidName)
}

/// The plugin source: the skeleton with every placeholder replaced by the
/// type name `ident`.
pub fn render_source(ident: &str) -> (r: String)
    ensures
        r@ == replaced(LIB_RS_FILE_TEXT@, PLACEHOLDER@, ident@),
{
    proof {
        reveal_strlit("$plugin_name");
    }
    replace_all(LIB_RS_FILE_TEXT, PLACEHOLDER, ident)
}

/// Replacing changes the length by the difference of the two texts' lengths
/// once per occurrence found: every occurrence of `p` is replaced by exactly
/// one copy of `w`.
pub proof fn lemma_replaced_len(t: Seq<char>, p: Seq<char>, w: Seq<char>)
    ensures
        replaced(t, p, w).len() + occurrences(t, p) * p.len() == t.len() + occurrences(t, p)
            * w.len(),
    decreases t.len(),
{
    let r = replaced(t, p, w).len() as int;
    let n = occurrences(t, p) as int;
    let pl = p.len() as int;
    let wl = w.len() as int;
    if p.len() == 0 || t.len() < p.len() {
        assert(r == t.len() && n == 0);
        assert(n * pl == 0 && n * wl == 0) by (nonlinear_arith)
            requires
                n == 0,
        ;
    } else if t.take(pl) == p {
        let u = t.skip(pl);
        lemma_replaced_len(u, p, w);
        let r1 = replaced(u, p, w).len() as int;
        let c = occurrences(u, p) as int;
        assert(n == 1 + c);
        assert(r == wl + r1);
        assert(r + n * pl == t.len() + n * wl) by (nonlinear_arith)
            requires
                n == 1 + c,
                r == wl + r1,
                r1 + c * pl == u.len() + c * wl,
                u.len() == t.len() - pl,
        ;
    } else {
        let u = t.skip(1);
        lemma_replaced_len(u, p, w);
        assert(r == 1 + replaced(u, p, w).len());
        assert(n == occurrences(u, p));
    }
}

/// When every `p[0]` in `t` begins an occurrence of `p` and `w` holds no
/// `p[0]`, nothing of `p` survives the replacement: the result holds no
/// `p[0]`, so no occurrence of `p` at all.
pub proof fn lemma_replaced_exhaustive(t: Seq<char>, p: Seq<char>, w: Seq<char>)
    requires
        p.len() > 0,
        lacks(w, p[0]),
        forall|i: int| 0 <= i < t.len() && t[i] == p[0] ==> occurs_at(t, p, i),
    ensures
        lacks(replaced(t, p, w), p[0]),
        forall|i: int| !occurs_at(replaced(t, p, w), p, i),
    decreases t.len(),
{
    let r = replaced(t, p, w);
    let m = p.len() as int;
    if t.len() < m {
        assert forall|i: int| 0 <= i < t.len() implies t[i] != p[0] by {
            if t[i] == p[0] {
                assert(occurs_at(t, p, i));
            }
        }
    } else if t.take(m) == p {
        let u = t.skip(m);
        assert forall|i: int| 0 <= i < u.len() && u[i] == p[0] implies occurs_at(u, p, i) by {
            assert(occurs_at(t, p, i + m));
            assert(u.subrange(i, i + m) =~= t.subrange(i + m, i + m + m));
        }
        lemma_replaced_exhaustive(u, p, w);
        assert(r == w + replaced(u, p, w));
    } else {
        if t[0] == p[0] {
            assert(occurs_at(t, p, 0));
            assert(t.take(m) =~= t.subrange(0, m));
        }
        let u = t.skip(1);
        assert forall|i: int| 0 <= i < u.len() && u[i] == p[0] implies occurs_at(u, p, i) by {
            assert(occurs_at(t, p, i + 1));
            assert(u.subrange(i, i + m) =~= t.subrange(i + 1, i + 1 + m));
        }
        lemma_replaced_exhaustive(u, p, w);
        assert(r == seq![t[0]] + replaced(u, p, w));
    }
    assert forall|i: int| !occurs_at(r, p, i) by {
        if occurs_at(r, p, i) {
            assert(r.subrange(i, i + m)[0] == r[i]);
        }
    }
}

/// A text free of `p[0]` passes through the replacement unchanged and holds
/// no occurrence.
proof fn lemma_replaced_plain_prefix(a: Seq<char>, rest: Seq<char>, p: Seq<char>, w: Seq<char>)
    requires
        p.len() > 0,
        lacks(a, p[0]),
    ensures
        replaced(a + rest, p, w) == a + replaced(rest, p, w),
        occurrences(a + rest, p) == occurrences(rest, p),
    decreases a.len(),
{
    let t = a + rest;
    if a.len() == 0 {
        assert(t =~= rest);
    } else {
        assert(t[0] == a[0]);
        if t.len() >= p.len() {
            assert(t.take(p.len() as int)[0] != p[0]);
        }
        lemma_replaced_plain_prefix(a.skip(1), rest, p, w);
        assert(t.skip(1) =~= a.skip(1) + rest);
        if t.len() < p.len() {
            assert(replaced(rest, p, w) == rest);
            assert(occurrences(rest, p) == 0);
        } else {
            assert(seq![t[0]] + (a.skip(1) + replaced(rest, p, w)) =~= a + replaced(rest, p, w));
        }
    }
}

/// An occurrence at the front is replaced by one copy of `w`.
proof fn lemma_replaced_pattern_prefix(rest: Seq<char>, p: Seq<char>, w: Seq<char>)
    requires
        p.len() > 0,
    ensures
        replaced(p + rest, p, w) == w + replaced(rest, p, w),
        occurrences(p + rest, p) == 1 + occurrences(rest, p),
{
    let t = p + rest;
    assert(t.take(p.len() as int) =~= p);
    assert(t.skip(p.len() as int) =~= rest);
}

/// The skeleton holds the placeholder four times. Rendered with a type name
/// free of `$`, each of the four places holds that name, and no placeholder
/// (no `$` at all) is left.
pub proof fn lemma_skeleton_substitution(ident: Seq<char>)
    requires
        lacks(ident, '$'),
    ensures
        occurrences(LIB_RS_FILE_TEXT@, PLACEHOLDER@) == 4,
        replaced(LIB_RS_FILE_TEXT@, PLACEHOLDER@, ident).len() + 4 * PLACEHOLDER@.len()
            == LIB_RS_FILE_TEXT@.len() + 4 * ident.len(),
        lacks(replaced(LIB_RS_FILE_TEXT@, PLACEHOLDER@, ident), '$'),
        forall|i: int| !occurs_at(replaced(LIB_RS_FILE_TEXT@, PLACEHOLDER@, ident), PLACEHOLDER@, i),
{
    reveal_strlit("$plugin_name");
    reveal_strlit("use quill::{Game, Plugin, Setup};\n\nquill::plugin!($plugin_name);\n\nstruct $plugin_name {}\n\nimpl Plugin for $plugin_name {\n    fn enable(_game: &mut Game, _setup: &mut Setup<Self>) -> Self {\n        $plugin_name {}\n    }\n\n    fn disable(self, _game: &mut Game) {}\n}\n");
    reveal_strlit("use quill::{Game, Plugin, Setup};\n\nquill::plugin!(");
    reveal_strlit(");\n\nstruct ");
    reveal_strlit(" {}\n\nimpl Plugin for ");
    reveal_strlit(" {\n    fn enable(_game: &mut Game, _setup: &mut Setup<Self>) -> Self {\n        ");
    reveal_strlit(" {}\n    }\n\n    fn disable(self, _game: &mut Game) {}\n}\n");
    let p = PLACEHOLDER@;
    let a = "use quill::{Game, Plugin, Setup};\n\nquill::plugin!("@;
    let b = ");\n\nstruct "@;
    let c = " {}\n\nimpl Plugin for "@;
    let d = " {\n    fn enable(_game: &mut Game, _setup: &mut Setup<Self>) -> Self {\n        "@;
    let e = " {}\n    }\n\n    fn disable(self, _game: &mut Game) {}\n}\n"@;
    assert(p[0] == '$');
    assert(lacks(a, '$'));
    assert(lacks(b, '$'));
    assert(lacks(c, '$'));
    assert(lacks(d, '$'));
    assert(lacks(e, '$'));
    let t4 = p + e;
    let t3 = p + (d + t4);
    let t2 = p + (c + t3);
    let t1 = p + (b + t2);
    assert(LIB_RS_FILE_TEXT@ =~= a + t1);
    assert(replaced(e, p, ident) == e && occurrences(e, p) == 0) by {
        lemma_replaced_plain_prefix(e, Seq::empty(), p, ident);
        assert(e + Seq::<char>::empty() =~= e);
    }
    lemma_replaced_pattern_prefix(e, p, ident);
    lemma_replaced_plain_prefix(d, t4, p, ident);
    lemma_replaced_pattern_prefix(d + t4, p, ident);
    lemma_replaced_plain_prefix(c, t3, p, ident);
    lemma_replaced_pattern_prefix(c + t3, p, ident);
    lemma_replaced_plain_prefix(b, t2, p, ident);
    lemma_replaced_pattern_prefix(b + t2, p, ident);
    lemma_replaced_plain_prefix(a, t1, p, ident);
    let out = a + (ident + (b + (ident + (c + (ident + (d + (ident + e)))))));
    assert(replaced(LIB_RS_FILE_TEXT@, p, ident) == out);
    lemma_replaced_len(LIB_RS_FILE_TEXT@, p, ident);
    assert forall|i: int| 0 <= i < out.len() implies out[i] != '$' by {
        let s1 = a.len() as int;
        let s2 = s1 + ident.len();
        let s3 = s2 + b.len();
        let s4 = s3 + ident.len();
        let s5 = s4 + c.len();
        let s6 = s5 + ident.len();
        let s7 = s6 + d.len();
        let s8 = s7 + ident.len();
        if i < s1 {
            assert(out[i] == a[i]);
        } else if i < s2 {
            assert(out[i] == ident[i - s1]);
        } else if i < s3 {
            assert(out[i] == b[i - s2]);
        } else if i < s4 {
            assert(out[i] == ident[i - s3]);
        } else if i < s5 {
            assert(out[i] == c[i - s4]);
        } else if i < s6 {
            assert(out[i] == ident[i - s5]);
        } else if i < s7 {
            assert(out[i] == d[i - s6]);
        } else if i < s8 {
            assert(out[i] == ident[i - s7]);
        } else {
            assert(out[i] == e[i - s8]);
        }
    }
    assert forall|i: int| !occurs_at(out, p, i) by {
        if occurs_at(out, p, i) {
            assert(out.subrange(i, i + p.len())[0] == out[i]);
        }
    }
}

} // verus!
