//! Preparing an embeddable CPython runtime for third-party packages: its
//! `._pth` path files ship with `import site` commented out, and are rewritten
//! so that site-packages load.
use vstd::prelude::*;

use crate::text::{chars_end_with, chars_match_at, chars_of, string_from_chars};

verus! {

/// `s` with every occurrence of `from` replaced by `to`, matches taken from
/// the left and not overlapping, as `str::replace` does.
pub open spec fn replace_all(s: Seq<char>, from: Seq<char>, to: Seq<char>) -> Seq<char>
    recommends
        from.len() > 0,
    decreases s.len(),
{
    if from.len() == 0 || s.len() < from.len() {
        s
    } else if s.subrange(0, from.len() as int) == from {
        to + replace_all(s.skip(from.len() as int), from, to)
    } else {
        seq![s[0]] + replace_all(s.skip(1), from, to)
    }
}

proof fn lemma_replace_all_short(s: Seq<char>, from: Seq<char>, to: Seq<char>)
    requires
        from.len() > 0,
        s.len() < from.len(),
    ensures
        replace_all(s, from, to) == s,
{
}

fn replace_chars(s: &Vec<char>, from: &Vec<char>, to: &Vec<char>) -> (r: Vec<char>)
    requires
        from@.len() > 0,
    ensures
        r@ == replace_all(s@, from@, to@),
{
    let n = s.len();
    let mut out: Vec<char> = Vec::new();
    let mut i: usize = 0;
    assert(s@.skip(0) =~= s@);
    while i < n
        invariant
            n == s@.len(),
            i <= n,
            from@.len() > 0,
            out@ + replace_all(s@.skip(i as int), from@, to@) == replace_all(s@, from@, to@),
        decreases n - i,
    {
        let ghost rest = s@.skip(i as int);
        if n - i >= from.len() && chars_match_at(s, i, from) {
            assert(rest.subrange(0, from@.len() as int) =~= s@.subrange(i as int, i + from@.len()));
            assert(rest.skip(from@.len() as int) =~= s@.skip(i + from@.len()));
            let ghost before = out@;
            let mut k: usize = 0;
            while k < to.len()
                invariant
                    k <= to@.len(),
                    out@ == before + to@.subrange(0, k as int),
                decreases to@.len() - k,
            {
                out.push(to[k]);
                k += 1;
                assert(out@ =~= before + to@.subrange(0, k as int));
            }
            assert(to@.subrange(0, to@.len() as int) =~= to@);
            assert(out@ + replace_all(s@.skip(i + from@.len()), from@, to@) =~= before + (to@
                + replace_all(rest.skip(from@.len() as int), from@, to@)));
            i += from.len();
        } else {
            if n - i >= from.len() {
                assert(rest.subrange(0, from@.len() as int) =~= s@.subrange(
                    i as int,
                    i + from@.len(),
                ));
            } else {
                proof {
                    lemma_replace_all_short(rest, from@, to@);
                    lemma_replace_all_short(rest.skip(1), from@, to@);
                }
            }
            assert(rest.skip(1) =~= s@.skip(i + 1));
            let ghost before = out@;
            out.push(s[i]);
            assert(out@ + replace_all(s@.skip(i + 1), from@, to@) =~= before + (seq![rest[0]]
                + replace_all(rest.skip(1), from@, to@)));
            i += 1;
        }
    }
    assert(s@.skip(n as int) =~= Seq::<char>::empty());
    assert(out@ + Seq::<char>::empty() =~= out@);
    out
}

/// The commented-out form of the site import that embeddable runtimes ship.
pub open spec fn commented_site_import() -> Seq<char> {
    "#import site"@
}

/// The same, commented out with a blank after the hash.
pub open spec fn spaced_commented_site_import() -> Seq<char> {
    "# import site"@
}

/// The active site import.
pub open spec fn site_import() -> Seq<char> {
    "import site"@
}

/// Uncomments `import site` in the contents of a `._pth` file: every
/// `#import site` and then every `# import site` becomes `import site`.
pub fn enable_site_import(content: &str) -> (r: String)
    ensures
        r@ == replace_all(
            replace_all(content@, commented_site_import(), site_import()),
            spaced_commented_site_import(),
            site_import(),
        ),
{
    proof {
        reveal_strlit("#import site");
        reveal_strlit("# import site");
    }
    let text = chars_of(content);
    let active = chars_of("import site");
    let first = replace_chars(&text, &chars_of("#import site"), &active);
    let second = replace_chars(&first, &chars_of("# import site"), &active);
    string_from_chars(second.as_slice())
}

/// The suffix that marks a path file.
pub open spec fn pth_suffix() -> Seq<char> {
    "._pth"@
}

/// Whether a file with this name is a path file, i.e. `Path::extension` gives
/// `_pth`: the name ends with `._pth` and that dot is not its first character
/// (a name that starts with its only dot has no extension).
pub fn has_pth_extension(file_name: &str) -> (r: bool)
    ensures
        r == (file_name@.len() > pth_suffix().len() && file_name@.subrange(
            file_name@.len() - pth_suffix().len(),
            file_name@.len() as int,
        ) == pth_suffix()),
{
    proof {
        reveal_strlit("._pth");
    }
    let name = chars_of(file_name);
    let suffix = chars_of("._pth");
    name.len() > suffix.len() && chars_end_with(&name, &suffix)
}

} // verus!
