//! Rewriting of the generated project manifest.

use crate::error::NewError;
use vstd::prelude::*;
use vstd::string::StringExecFns;

verus! {

/// The block that replaces the manifest's default dependency section: a
/// dynamic-library crate type and the framework dependency.
pub const CARGO_TOML_FILE_TEXT: &'static str = "\n[lib]\ncrate-type = [\"cdylib\"]\n\n[dependencies]\nquill = { git = \"https://github.com/feather-rs/feather\", branch = \"main\" }";

/// The characters of each line, in order.
pub open spec fn lines_view(lines: Seq<String>) -> Seq<Seq<char>> {
    lines.map_values(|l: String| l@)
}

/// The lines written out one after another, each followed by a newline.
pub open spec fn lines_text(lines: Seq<Seq<char>>) -> Seq<char>
    decreases lines.len(),
{
    if lines.len() == 0 {
        Seq::empty()
    } else {
        lines_text(lines.drop_last()) + lines.last() + seq!['\n']
    }
}

/// The manifest with its last two lines dropped and the dependency block
/// appended.
pub open spec fn rewritten_manifest(lines: Seq<Seq<char>>) -> Seq<char> {
    lines_text(lines.take(lines.len() - 2)) + CARGO_TOML_FILE_TEXT@
}

/// Builds the new manifest text from the lines of the generated one: every
/// line but the last two, each followed by a newline, then the dependency
/// block. A manifest of fewer than two lines is refused.
pub fn rewrite_manifest(lines: &Vec<String>) -> (r: Result<String, NewError>)
    ensures
        r is Err <==> lines.len() < 2,
        r is Err ==> r == Err::<String, NewError>(NewError::ManifestTooShort),
        r matches Ok(t) ==> t@ == rewritten_manifest(lines_view(lines@)),
{
    let n = lines.len();
    if n < 2 {
        return Err(NewError::ManifestTooShort);
    }
    let ghost ls = lines_view(lines@);
    let mut out = String::new();
    let mut i: usize = 0;
    assert(ls.take(0) =~= Seq::<Seq<char>>::empty());
    while i < n - 2
        invariant
            i <= n - 2,
            n == lines.len(),
            ls == lines_view(lines@),
            out@ == lines_text(ls.take(i as int)),
        decreases n - 2 - i,
    {
        proof {
            reveal_strlit("\n");
        }
        out.append(lines[i].as_str());
        out.append("\n");
        assert(ls.take(i + 1).drop_last() =~= ls.take(i as int));
        assert(ls.take(i + 1).last() == lines@[i as int]@);
        i = i + 1;
    }
    out.append(CARGO_TOML_FILE_TEXT);
    Ok(out)
}

/// The text of the first `i` lines begins the text of the first `j` lines.
proof fn lemma_lines_text_prefix(s: Seq<Seq<char>>, i: int, j: int)
    requires
        0 <= i <= j <= s.len(),
    ensures
        lines_text(s.take(i)).len() <= lines_text(s.take(j)).len(),
        lines_text(s.take(j)).take(lines_text(s.take(i)).len() as int) == lines_text(s.take(i)),
    decreases j - i,
{
    if i < j {
        lemma_lines_text_prefix(s, i, j - 1);
        assert(s.take(j).drop_last() =~= s.take(j - 1));
        let a = lines_text(s.take(i));
        let b = lines_text(s.take(j - 1));
        assert(lines_text(s.take(j)) == b + s[j - 1] + seq!['\n']);
        assert(lines_text(s.take(j)).take(a.len() as int) =~= b.take(a.len() as int));
    } else {
        assert(lines_text(s.take(j)).take(lines_text(s.take(i)).len() as int) =~= lines_text(
            s.take(i),
        ));
    }
}

/// Rewriting a manifest of at least two lines keeps every line but the last
/// two verbatim, in order, each followed by a newline, and then ends with
/// the dependency block; what the last two lines held makes no difference.
pub proof fn lemma_manifest_rewrite(lines: Seq<Seq<char>>, other: Seq<Seq<char>>)
    requires
        lines.len() >= 2,
        other.len() == lines.len(),
        forall|k: int| 0 <= k < lines.len() - 2 ==> other[k] == lines[k],
    ensures
        ({
            let out = rewritten_manifest(lines);
            let kept = lines_text(lines.take(lines.len() - 2));
            &&& out == kept + CARGO_TOML_FILE_TEXT@
            &&& out.skip(kept.len() as int) == CARGO_TOML_FILE_TEXT@
            &&& forall|k: int|
                0 <= k < lines.len() - 2 ==> {
                    let at = lines_text(#[trigger] lines.take(k)).len() as int;
                    &&& out.subrange(at, at + lines[k].len()) == lines[k]
                    &&& out[at + lines[k].len()] == '\n'
                }
        }),
        rewritten_manifest(other) == rewritten_manifest(lines),
{
    let n = lines.len() as int;
    let out = rewritten_manifest(lines);
    let kept = lines_text(lines.take(n - 2));
    assert(other.take(n - 2) =~= lines.take(n - 2));
    assert(out.skip(kept.len() as int) =~= CARGO_TOML_FILE_TEXT@);
    assert forall|k: int| 0 <= k < n - 2 implies {
        let at = lines_text(#[trigger] lines.take(k)).len() as int;
        &&& out.subrange(at, at + lines[k].len()) == lines[k]
        &&& out[at + lines[k].len()] == '\n'
    } by {
        let at = lines_text(lines.take(k)).len() as int;
        let upto = lines_text(lines.take(k + 1));
        assert(lines.take(k + 1).drop_last() =~= lines.take(k));
        assert(upto == lines_text(lines.take(k)) + lines[k] + seq!['\n']);
        lemma_lines_text_prefix(lines, k + 1, n - 2);
        assert(out.take(upto.len() as int) =~= upto);
        assert(out.subrange(at, at + lines[k].len()) =~= upto.subrange(at, at + lines[k].len()));
        assert(upto.subrange(at, at + lines[k].len()) =~= lines[k]);
        assert(out[at + lines[k].len()] == upto[at + lines[k].len()]);
    }
}

} // verus!
