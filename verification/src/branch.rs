use vstd::prelude::*;

use crate::config::DeploymentConfig;

verus! {

/// A character with a meaning of its own in a glob pattern.
pub open spec fn is_glob_metachar(c: char) -> bool {
    c == '?' || c == '*' || c == '['
}

/// Text without a backslash, which some platforms treat as a path separator.
pub open spec fn has_no_backslash(s: Seq<char>) -> bool {
    forall|i: int| 0 <= i < s.len() ==> s[i] != '\\'
}

/// A glob pattern that stands for itself alone.
pub open spec fn is_literal_pattern(p: Seq<char>) -> bool {
    &&& has_no_backslash(p)
    &&& forall|i: int| 0 <= i < p.len() ==> !is_glob_metachar(#[trigger] p[i])
}

/// A literal pattern, or a literal prefix followed by a single `*`.
pub open spec fn is_simple_pattern(p: Seq<char>) -> bool {
    ||| is_literal_pattern(p)
    ||| (p.len() > 0 && p.last() == '*' && is_literal_pattern(p.drop_last()))
}

/// Whether a simple pattern matches `text`: a literal pattern matches itself,
/// and a prefix followed by `*` matches every text that starts with the prefix.
pub open spec fn simple_pattern_matches(p: Seq<char>, text: Seq<char>) -> bool {
    if is_literal_pattern(p) {
        p == text
    } else {
        let prefix = p.drop_last();
        prefix.len() <= text.len() && text.take(prefix.len() as int) == prefix
    }
}

/// A pattern with a `[` that no `]` closes; glob refuses an unclosed bracket.
pub open spec fn has_unclosed_bracket(p: Seq<char>) -> bool {
    p.contains('[') && !p.contains(']')
}

/// A pattern without brackets that holds three `*` in a row; glob refuses a run
/// of more than two `*`.
pub open spec fn has_star_run_of_three(p: Seq<char>) -> bool {
    &&& !p.contains('[')
    &&& exists|i: int| 0 <= i && i + 2 < p.len() && #[trigger] p[i] == '*' && p[i + 1] == '*' && p[i + 2] == '*'
}

/// A pattern that `glob::Pattern::new` refuses, of the kinds its documentation names.
pub open spec fn is_invalid_pattern(p: Seq<char>) -> bool {
    has_unclosed_bracket(p) || has_star_run_of_three(p)
}

/// What `glob::Pattern::new(pattern)` followed by `matches(text)` gives for
/// backslash-free texts: `None` where the pattern does not compile, else whether
/// `text` matches it.
pub uninterp spec fn glob_outcome(pattern: Seq<char>, text: Seq<char>) -> Option<bool>;

/// Compiles `pattern` with `glob::Pattern::new` and, where it compiles, asks
/// `glob::Pattern::matches` whether `text` matches it; `None` where the pattern
/// does not compile.
///
/// The glob grammar (`?`, `*`, `**`, `[..]`, `[!..]`) is not written out: for
/// backslash-free texts the outcome is named by `glob_outcome`, which depends on
/// the two texts alone. A backslash is a path separator on some platforms, and
/// there glob compiles `**` and compares separators differently, so for texts
/// with a backslash the outcome is left unsaid. The contract adds what glob 0.3's
/// source and documentation show for literals and a trailing `*` (a character
/// other than `?`, `*` and `[` matches only an equal character, and a single `*`
/// matches any sequence of characters) and that an unclosed `[` and a run of
/// three `*` (outside brackets) make a pattern that does not compile.
#[verifier::external_body]
fn glob_match(pattern: &str, text: &str) -> (r: Option<bool>)
    ensures
        has_no_backslash(pattern@) && has_no_backslash(text@) ==> r == glob_outcome(
            pattern@,
            text@,
        ),
        is_simple_pattern(pattern@) && has_no_backslash(text@) ==> r == Some(
            simple_pattern_matches(pattern@, text@),
        ),
        is_invalid_pattern(pattern@) ==> r is None,
{
    match glob::Pattern::new(pattern) {
        Ok(compiled) => Some(compiled.matches(text)),
        Err(_) => None,
    }
}

/// What `glob_match` shows of the outcome for `pattern` and a backslash-free
/// `branch`: a simple pattern's outcome, and `None` for an invalid one.
pub open spec fn known_outcome(pattern: Seq<char>, branch: Seq<char>) -> bool {
    &&& is_simple_pattern(pattern) ==> glob_outcome(pattern, branch) == Some(
        simple_pattern_matches(pattern, branch),
    )
    &&& has_no_backslash(pattern) && is_invalid_pattern(pattern) ==> glob_outcome(
        pattern,
        branch,
    ) is None
}

/// `known_outcome` for every pattern of the list.
pub open spec fn known_outcomes(patterns: Seq<String>, branch: Seq<char>) -> bool {
    forall|i: int| 0 <= i < patterns.len() ==> known_outcome(#[trigger] patterns[i]@, branch)
}

/// Every pattern of the list is simple and fails to match, or is invalid.
pub open spec fn no_simple_match_and_rest_invalid(patterns: Seq<String>, branch: Seq<char>) -> bool {
    forall|i: int|
        0 <= i < patterns.len() ==> (is_simple_pattern(#[trigger] patterns[i]@)
            && !simple_pattern_matches(patterns[i]@, branch)) || is_invalid_pattern(patterns[i]@)
}

/// Every pattern of the list is simple.
pub open spec fn all_simple_patterns(patterns: Seq<String>) -> bool {
    forall|i: int| 0 <= i < patterns.len() ==> is_simple_pattern(#[trigger] patterns[i]@)
}

/// Some pattern of the list is simple and matches `branch`.
pub open spec fn some_simple_pattern_matches(patterns: Seq<String>, branch: Seq<char>) -> bool {
    exists|i: int| 0 <= i < patterns.len() && simple_pattern_matches(#[trigger] patterns[i]@, branch)
}

/// No pattern of the list holds a backslash.
pub open spec fn patterns_without_backslash(patterns: Seq<String>) -> bool {
    forall|i: int| 0 <= i < patterns.len() ==> has_no_backslash(#[trigger] patterns[i]@)
}

/// Some pattern of the list compiles and matches `branch`.
pub open spec fn some_pattern_matches(patterns: Seq<String>, branch: Seq<char>) -> bool {
    exists|i: int| 0 <= i < patterns.len() && #[trigger] glob_outcome(patterns[i]@, branch) == Some(true)
}

proof fn lemma_simple_pattern_has_no_backslash(p: Seq<char>)
    ensures
        is_simple_pattern(p) ==> has_no_backslash(p),
{
    if is_simple_pattern(p) && !is_literal_pattern(p) {
        assert forall|k: int| 0 <= k < p.len() implies p[k] != '\\' by {
            if k < p.len() - 1 {
                assert(p.drop_last()[k] == p[k]);
            }
        }
    }
}

/// Whether one of the outcomes of matching a branch against patterns is a match:
/// `Some(true)`; `None` stands for a pattern that did not compile.
pub fn any_pattern_matched(outcomes: &[Option<bool>]) -> (r: bool)
    ensures
        r == exists|i: int| 0 <= i < outcomes@.len() && #[trigger] outcomes@[i] == Some(true),
{
    let mut i: usize = 0;
    while i < outcomes.len()
        invariant
            i <= outcomes@.len(),
            forall|j: int| 0 <= j < i ==> #[trigger] outcomes@[j] != Some(true),
        decreases outcomes.len() - i,
    {
        if let Some(true) = outcomes[i] {
            return true;
        }
        i = i + 1;
    }
    false
}

/// Whether `branch` matches one of the glob `patterns`; a pattern that does
/// not compile matches nothing.
pub fn match_branch(branch: &str, patterns: &[String]) -> (r: bool)
    ensures
        patterns@.len() == 0 ==> !r,
        patterns_without_backslash(patterns@) && has_no_backslash(branch@) ==> (r
            == some_pattern_matches(patterns@, branch@)),
        has_no_backslash(branch@) ==> known_outcomes(patterns@, branch@),
        has_no_backslash(branch@) && (exists|i: int|
            0 <= i < patterns@.len() && is_simple_pattern(#[trigger] patterns@[i]@)
                && simple_pattern_matches(patterns@[i]@, branch@)) ==> r,
        has_no_backslash(branch@) && no_simple_match_and_rest_invalid(patterns@, branch@) ==> !r,
        all_simple_patterns(patterns@) && has_no_backslash(branch@) ==> (r
            == some_simple_pattern_matches(patterns@, branch@)),
{
    let mut outcomes: Vec<Option<bool>> = Vec::new();
    let mut i: usize = 0;
    while i < patterns.len()
        invariant
            i <= patterns@.len(),
            outcomes@.len() == i,
            has_no_backslash(branch@) ==> forall|j: int|
                0 <= j < i && has_no_backslash(#[trigger] patterns@[j]@) ==> outcomes@[j]
                    == glob_outcome(patterns@[j]@, branch@),
            has_no_backslash(branch@) ==> forall|j: int|
                0 <= j < i ==> known_outcome(#[trigger] patterns@[j]@, branch@),
            has_no_backslash(branch@) ==> forall|j: int|
                0 <= j < i && is_simple_pattern(#[trigger] patterns@[j]@) ==> outcomes@[j] == Some(
                    simple_pattern_matches(patterns@[j]@, branch@),
                ),
            forall|j: int| 0 <= j < i && is_invalid_pattern(#[trigger] patterns@[j]@) ==> outcomes@[j] is None,
        decreases patterns.len() - i,
    {
        proof {
            lemma_simple_pattern_has_no_backslash(patterns@[i as int]@);
        }
        outcomes.push(glob_match(patterns[i].as_str(), branch));
        i = i + 1;
    }
    let r = any_pattern_matched(outcomes.as_slice());
    proof {
        if r {
            let k = choose|k: int| 0 <= k < outcomes@.len() && #[trigger] outcomes@[k] == Some(true);
            if patterns_without_backslash(patterns@) && has_no_backslash(branch@) {
                assert(has_no_backslash(patterns@[k]@));
                assert(glob_outcome(patterns@[k]@, branch@) == Some(true));
            }
            if all_simple_patterns(patterns@) && has_no_backslash(branch@) {
                assert(is_simple_pattern(patterns@[k]@));
                assert(simple_pattern_matches(patterns@[k]@, branch@));
            }
            if has_no_backslash(branch@) && no_simple_match_and_rest_invalid(patterns@, branch@) {
                assert(is_simple_pattern(patterns@[k]@) || is_invalid_pattern(patterns@[k]@));
            }
        } else {
            if patterns_without_backslash(patterns@) && has_no_backslash(branch@) {
                assert forall|j: int| 0 <= j < patterns@.len() implies #[trigger] glob_outcome(
                    patterns@[j]@,
                    branch@,
                ) != Some(true) by {
                    assert(has_no_backslash(patterns@[j]@));
                    assert(outcomes@[j] != Some(true));
                }
            }
            if has_no_backslash(branch@) {
                if exists|i: int|
                    0 <= i < patterns@.len() && is_simple_pattern(#[trigger] patterns@[i]@)
                        && simple_pattern_matches(patterns@[i]@, branch@) {
                    let k = choose|i: int|
                        0 <= i < patterns@.len() && is_simple_pattern(#[trigger] patterns@[i]@)
                            && simple_pattern_matches(patterns@[i]@, branch@);
                    assert(outcomes@[k] == Some(true));
                }
            }
        }
    }
    r
}

/// The first position of `matches` that holds `true`, if any.
pub fn first_match(matches: &[bool]) -> (r: Option<usize>)
    ensures
        r matches Some(i) ==> i < matches@.len() && matches@[i as int] && forall|j: int|
            0 <= j < i ==> !matches@[j],
        r is None <==> forall|j: int| 0 <= j < matches@.len() ==> !matches@[j],
{
    let mut i: usize = 0;
    while i < matches.len()
        invariant
            i <= matches@.len(),
            forall|j: int| 0 <= j < i ==> !matches@[j],
        decreases matches.len() - i,
    {
        if matches[i] {
            return Some(i);
        }
        i = i + 1;
    }
    None
}

/// Some branch pattern of the deployment compiles and matches `branch`.
pub open spec fn deployment_matches(deployment: DeploymentConfig, branch: Seq<char>) -> bool {
    some_pattern_matches(deployment.branches@, branch)
}

/// No branch pattern of any deployment holds a backslash.
pub open spec fn deployments_without_backslash(deployments: Seq<DeploymentConfig>) -> bool {
    forall|i: int|
        0 <= i < deployments.len() ==> patterns_without_backslash(#[trigger] deployments[i].branches@)
}

/// The position of the first deployment one of whose branch patterns matches
/// `branch`, if any.
pub fn find_deployment(deployments: &[DeploymentConfig], branch: &str) -> (r: Option<usize>)
    ensures
        r matches Some(i) ==> i < deployments@.len() && deployments@[i as int].branches@.len() > 0,
        has_no_backslash(branch@) ==> forall|j: int|
            0 <= j < deployments@.len() ==> known_outcomes(#[trigger] deployments@[j].branches@, branch@),
        deployments_without_backslash(deployments@) && has_no_backslash(branch@) ==> {
            &&& r matches Some(i) ==> deployment_matches(deployments@[i as int], branch@) && forall|
                j: int,
            | 0 <= j < i ==> !deployment_matches(#[trigger] deployments@[j], branch@)
            &&& r is None <==> forall|j: int|
                0 <= j < deployments@.len() ==> !deployment_matches(#[trigger] deployments@[j], branch@)
        },
{
    let mut matches: Vec<bool> = Vec::new();
    let mut i: usize = 0;
    while i < deployments.len()
        invariant
            i <= deployments@.len(),
            matches@.len() == i,
            forall|j: int| 0 <= j < i ==> #[trigger] matches@[j] ==> deployments@[j].branches@.len() > 0,
            has_no_backslash(branch@) ==> forall|j: int|
                0 <= j < i ==> known_outcomes(#[trigger] deployments@[j].branches@, branch@),
            deployments_without_backslash(deployments@) && has_no_backslash(branch@) ==> forall|j: int|
                0 <= j < i ==> matches@[j] == deployment_matches(#[trigger] deployments@[j], branch@),
        decreases deployments.len() - i,
    {
        let matched = match_branch(branch, deployments[i].branches.as_slice());
        proof {
            if deployments_without_backslash(deployments@) && has_no_backslash(branch@) {
                assert(patterns_without_backslash(deployments@[i as int].branches@));
            }
        }
        matches.push(matched);
        i = i + 1;
    }
    first_match(matches.as_slice())
}

/// A branch name with no glob metacharacters, used as a pattern, matches that
/// branch and no other.
pub proof fn lemma_branch_name_matches_only_itself(name: Seq<char>, branch: Seq<char>)
    requires
        is_literal_pattern(name),
    ensures
        is_simple_pattern(name),
        simple_pattern_matches(name, branch) <==> branch == name,
{
}

/// The pattern `*` matches every branch.
pub proof fn lemma_star_matches_every_branch(branch: Seq<char>)
    ensures
        is_simple_pattern("*"@),
        simple_pattern_matches("*"@, branch),
{
    reveal_strlit("*");
    assert("*"@.drop_last() =~= Seq::<char>::empty());
    assert(branch.take(0) =~= Seq::<char>::empty());
}

/// Adding patterns to a list, before or after, never takes away a match.
pub proof fn lemma_more_patterns_keep_match(
    patterns: Seq<String>,
    more: Seq<String>,
    branch: Seq<char>,
)
    requires
        some_pattern_matches(patterns, branch),
    ensures
        some_pattern_matches(patterns + more, branch),
        some_pattern_matches(more + patterns, branch),
{
    let i = choose|i: int|
        0 <= i < patterns.len() && #[trigger] glob_outcome(patterns[i]@, branch) == Some(true);
    assert((patterns + more)[i] == patterns[i]);
    assert((more + patterns)[more.len() + i] == patterns[i]);
}

/// Whether a list of patterns matches depends only on which patterns it holds,
/// not on their order or on repetitions.
pub proof fn lemma_only_the_patterns_held_matter(
    patterns: Seq<String>,
    others: Seq<String>,
    branch: Seq<char>,
)
    requires
        forall|p: String| patterns.contains(p) <==> others.contains(p),
    ensures
        some_pattern_matches(patterns, branch) == some_pattern_matches(others, branch),
{
    if some_pattern_matches(patterns, branch) {
        let i = choose|i: int|
            0 <= i < patterns.len() && #[trigger] glob_outcome(patterns[i]@, branch) == Some(true);
        assert(patterns.contains(patterns[i]));
        let j = choose|j: int| 0 <= j < others.len() && others[j] == patterns[i];
        assert(glob_outcome(others[j]@, branch) == Some(true));
    }
    if some_pattern_matches(others, branch) {
        let i = choose|i: int|
            0 <= i < others.len() && #[trigger] glob_outcome(others[i]@, branch) == Some(true);
        assert(others.contains(others[i]));
        let j = choose|j: int| 0 <= j < patterns.len() && patterns[j] == others[i];
        assert(glob_outcome(patterns[j]@, branch) == Some(true));
    }
}

/// Reordering the patterns does not change whether one of them matches.
pub proof fn lemma_pattern_order_does_not_matter(
    patterns: Seq<String>,
    reordered: Seq<String>,
    branch: Seq<char>,
)
    requires
        patterns.to_multiset() == reordered.to_multiset(),
    ensures
        some_pattern_matches(patterns, branch) == some_pattern_matches(reordered, branch),
{
    patterns.to_multiset_ensures();
    reordered.to_multiset_ensures();
    assert forall|p: String| patterns.contains(p) <==> reordered.contains(p) by {
        assert(patterns.contains(p) <==> patterns.to_multiset().count(p) > 0);
        assert(reordered.contains(p) <==> reordered.to_multiset().count(p) > 0);
    }
    lemma_only_the_patterns_held_matter(patterns, reordered, branch);
}

} // verus!
