//! Which packages a script imports: the names that follow `import` or `from`
//! at the start of a line, each reported once, in the order of first use.
use vstd::prelude::*;

use crate::text::contains_string;

verus! {

/// The pattern of an import statement at the start of a line; group 1 is the
/// top-level package name.
pub const IMPORT_PATTERN: &'static str = "(?m)^\\s*(?:import|from)\\s+([a-zA-Z0-9_]+)";

/// What `regex` yields for `pattern` on `haystack`: `None` where the pattern
/// does not compile, otherwise capture group 1 of each successive
/// non-overlapping match.
pub uninterp spec fn regex_captures_group_one(
    pattern: Seq<char>,
    haystack: Seq<char>,
) -> Option<Seq<Option<Seq<char>>>>;

/// `regex::Regex::new(pattern)`, then `Regex::captures_iter(haystack)` with
/// `Captures::get(1)` on each match. The contract names the outcome and ties
/// it to both arguments; it states nothing of the regex engine itself.
#[verifier::external_body]
fn regex_group_one(pattern: &str, haystack: &str) -> (r: Option<Vec<Option<String>>>)
    ensures
        r.deep_view() == regex_captures_group_one(pattern@, haystack@),
{
    regex::Regex::new(pattern).ok().map(
        |re| re.captures_iter(haystack).map(|c| c.get(1).map(|m| m.as_str().to_string())).collect(),
    )
}

/// The captured names, skipping matches where the group took part in nothing.
pub open spec fn captured_names(caps: Seq<Option<Seq<char>>>) -> Seq<Seq<char>>
    decreases caps.len(),
{
    if caps.len() == 0 {
        Seq::empty()
    } else {
        let earlier = captured_names(caps.drop_last());
        match caps.last() {
            Some(name) => earlier.push(name),
            None => earlier,
        }
    }
}

/// `names` with every repetition of an earlier name left out.
pub open spec fn first_occurrences(names: Seq<Seq<char>>) -> Seq<Seq<char>>
    decreases names.len(),
{
    if names.len() == 0 {
        Seq::empty()
    } else {
        let earlier = first_occurrences(names.drop_last());
        if earlier.contains(names.last()) {
            earlier
        } else {
            earlier.push(names.last())
        }
    }
}

/// The package names reported for the captures of the import pattern.
pub open spec fn import_names(caps: Seq<Option<Seq<char>>>) -> Seq<Seq<char>> {
    first_occurrences(captured_names(caps))
}

proof fn lemma_first_occurrences(names: Seq<Seq<char>>)
    ensures
        first_occurrences(names).no_duplicates(),
        forall|n: Seq<char>| first_occurrences(names).contains(n) <==> names.contains(n),
    decreases names.len(),
{
    if names.len() > 0 {
        let earlier = names.drop_last();
        lemma_first_occurrences(earlier);
        assert forall|n: Seq<char>| names.contains(n) <==> (earlier.contains(n) || n == names.last()) by {
            if names.contains(n) {
                let k = choose|k: int| 0 <= k < names.len() && names[k] == n;
                if k < names.len() - 1 {
                    assert(earlier[k] == n);
                }
            }
            if earlier.contains(n) {
                let k = choose|k: int| 0 <= k < earlier.len() && earlier[k] == n;
                assert(names[k] == n);
            }
            if n == names.last() {
                assert(names[names.len() - 1] == n);
            }
        }
        let fe = first_occurrences(earlier);
        if !fe.contains(names.last()) {
            assert forall|n: Seq<char>| fe.push(names.last()).contains(n) <==> (fe.contains(n) || n
                == names.last()) by {
                if fe.push(names.last()).contains(n) {
                    let k = choose|k: int|
                        0 <= k < fe.push(names.last()).len() && fe.push(names.last())[k] == n;
                    if k < fe.len() {
                        assert(fe[k] == n);
                    }
                }
                if fe.contains(n) {
                    let k = choose|k: int| 0 <= k < fe.len() && fe[k] == n;
                    assert(fe.push(names.last())[k] == n);
                }
                if n == names.last() {
                    assert(fe.push(names.last())[fe.len() as int] == n);
                }
            }
        }
    }
}

/// Keeps the names that group 1 captured, each once, in the order of its
/// first capture.
pub fn collect_import_names(captures: &Vec<Option<String>>) -> (names: Vec<String>)
    ensures
        names.deep_view() == import_names(captures.deep_view()),
        names.deep_view().no_duplicates(),
        forall|n: Seq<char>|
            names.deep_view().contains(n) <==> captures.deep_view().contains(Some(n)),
{
    let mut names: Vec<String> = Vec::new();
    let ghost caps = captures.deep_view();
    let mut i: usize = 0;
    while i < captures.len()
        invariant
            i <= captures@.len(),
            caps == captures.deep_view(),
            names.deep_view() == import_names(caps.take(i as int)),
        decreases captures@.len() - i,
    {
        assert(caps.take(i + 1).drop_last() =~= caps.take(i as int));
        assert(caps.take(i + 1).last() == caps[i as int]);
        match &captures[i] {
            Some(name) => {
                let ghost cn = captured_names(caps.take(i as int));
                assert(captured_names(caps.take(i + 1)) == cn.push(name@));
                assert(cn.push(name@).drop_last() =~= cn);
                if !contains_string(&names, name) {
                    let ghost before = names.deep_view();
                    names.push(name.clone());
                    assert(names.deep_view() =~= before.push(name@));
                }
            },
            None => {},
        }
        i += 1;
    }
    assert(caps.take(captures@.len() as int) =~= caps);
    proof {
        lemma_first_occurrences(captured_names(caps));
        lemma_captured_names_contains(caps);
        assert forall|n: Seq<char>|
            names.deep_view().contains(n) <==> captures.deep_view().contains(Some(n)) by {
            assert(names.deep_view().contains(n) <==> captured_names(caps).contains(n));
        }
    }
    names
}

proof fn lemma_captured_names_contains(caps: Seq<Option<Seq<char>>>)
    ensures
        forall|n: Seq<char>| captured_names(caps).contains(n) <==> caps.contains(Some(n)),
    decreases caps.len(),
{
    if caps.len() > 0 {
        let earlier = caps.drop_last();
        lemma_captured_names_contains(earlier);
        let ce = captured_names(earlier);
        assert forall|n: Seq<char>| captured_names(caps).contains(n) <==> caps.contains(Some(n)) by {
            if caps.contains(Some(n)) {
                let k = choose|k: int| 0 <= k < caps.len() && caps[k] == Some(n);
                if k < caps.len() - 1 {
                    assert(earlier[k] == Some(n));
                } else {
                    assert(captured_names(caps) == ce.push(n));
                    assert(ce.push(n)[ce.len() as int] == n);
                }
            }
            if earlier.contains(Some(n)) {
                let k = choose|k: int| 0 <= k < earlier.len() && earlier[k] == Some(n);
                assert(caps[k] == Some(n));
            }
            if ce.contains(n) && caps.last() is Some {
                let k = choose|k: int| 0 <= k < ce.len() && ce[k] == n;
                assert(ce.push(caps.last()->0)[k] == n);
            }
            if captured_names(caps).contains(n) && caps.last() is Some {
                let l = caps.last()->0;
                let k = choose|k: int| 0 <= k < ce.push(l).len() && ce.push(l)[k] == n;
                if k < ce.len() {
                    assert(ce[k] == n);
                } else {
                    assert(caps[caps.len() - 1] == Some(n));
                }
            }
        }
    }
}

/// Failure to scan a script for imports.
#[derive(Debug, PartialEq, Eq, Structural)]
pub enum ImportScanError {
    /// The regex engine refused the import pattern.
    PatternRejected,
}

/// Detects the packages that the script text `content` imports: for each line
/// that starts (after blanks) with `import` or `from`, the name that follows,
/// reported once, in the order of first use.
pub fn detect_imports(content: &str) -> (r: Result<Vec<String>, ImportScanError>)
    ensures
        match regex_captures_group_one(IMPORT_PATTERN@, content@) {
            None => r == Err::<Vec<String>, ImportScanError>(ImportScanError::PatternRejected),
            Some(caps) => r matches Ok(names) && names.deep_view() == import_names(caps),
        },
{
    match regex_group_one(IMPORT_PATTERN, content) {
        None => Err(ImportScanError::PatternRejected),
        Some(captures) => Ok(collect_import_names(&captures)),
    }
}

} // verus!
