//! Exclude patterns: glob expressions that take repositories out of a run.
//!
//! The glob syntax and its matching are those of the `glob` crate; this module
//! does not restate them. It names what that crate computes and proves the
//! filtering built on it.

use crate::repo::{texts, RepoDescriptor};
use vstd::prelude::*;

verus! {

#[verifier::external_type_specification]
#[verifier::external_body]
pub struct ExPattern(glob::Pattern);

#[verifier::external_type_specification]
#[verifier::external_body]
pub struct ExPatternError(glob::PatternError);

/// Whether `glob::Pattern::new` accepts `pattern` as a glob expression.
///
/// The `glob` crate gives the path separators of the platform it is built for a
/// meaning of their own next to `**`, so this name and `glob_matches` stand for
/// the results on one build target.
pub uninterp spec fn glob_syntax_ok(pattern: Seq<char>) -> bool;

/// The text that a compiled pattern was made from, which `glob::Pattern::as_str` returns.
pub uninterp spec fn pattern_text(pattern: glob::Pattern) -> Seq<char>;

/// Whether the glob expression `pattern` matches the whole of `text`, as
/// `glob::Pattern::matches` decides it with the crate's default options.
pub uninterp spec fn glob_matches(pattern: Seq<char>, text: Seq<char>) -> bool;

/// `glob::Pattern::new` compiles a glob expression. Trusted: it succeeds exactly on
/// the texts that `glob_syntax_ok` names, and the pattern it returns remembers the
/// text it was given.
pub assume_specification[ glob::Pattern::new ](pattern: &str) -> (compiled: Result<
    glob::Pattern,
    glob::PatternError,
>)
    ensures
        compiled is Ok <==> glob_syntax_ok(pattern@),
        compiled matches Ok(p) ==> pattern_text(p) == pattern@,
;

/// `glob::Pattern::as_str` hands out the text the pattern was compiled from.
/// Trusted: that text is what `pattern_text` names.
pub assume_specification<'a>[ glob::Pattern::as_str ](pattern: &'a glob::Pattern) -> (text: &'a str)
    ensures
        text@ == pattern_text(*pattern),
;

/// `glob::Pattern::matches` tests a text against a compiled pattern. Trusted: the
/// answer depends on the pattern's text and on the tested text alone, and is what
/// `glob_matches` names.
pub assume_specification[ glob::Pattern::matches ](pattern: &glob::Pattern, str: &str) -> (matched:
    bool)
    ensures
        matched == glob_matches(pattern_text(*pattern), str@),
;

/// A configuration that cannot be used. It is found before any repository is listed.
#[derive(Debug)]
pub enum ConfigError {
    /// The exclude pattern at `index` is no glob expression.
    InvalidPattern { index: usize, pattern: String, cause: glob::PatternError },
}

/// A compiled exclude pattern.
#[derive(Debug)]
pub struct ExcludePattern {
    compiled: glob::Pattern,
}

impl View for ExcludePattern {
    type V = Seq<char>;

    /// The glob expression, as text.
    closed spec fn view(&self) -> Seq<char> {
        pattern_text(self.compiled)
    }
}

impl ExcludePattern {
    /// Compiles `text`, or hands back the `glob` crate's error where it is no glob expression.
    pub fn new(text: &str) -> (compiled: Result<ExcludePattern, glob::PatternError>)
        ensures
            compiled is Ok <==> glob_syntax_ok(text@),
            compiled matches Ok(p) ==> p@ == text@,
    {
        match glob::Pattern::new(text) {
            Ok(compiled) => Ok(ExcludePattern { compiled }),
            Err(cause) => Err(cause),
        }
    }

    /// The glob expression that this pattern was compiled from.
    pub fn as_str(&self) -> (text: &str)
        ensures
            text@ == self@,
    {
        self.compiled.as_str()
    }

    /// Whether this pattern matches the whole of `identifier`.
    pub fn matches(&self, identifier: &str) -> (matched: bool)
        ensures
            matched == glob_matches(self@, identifier@),
    {
        self.compiled.matches(identifier)
    }
}

/// The glob expressions of a sequence of compiled patterns.
pub open spec fn pattern_texts(patterns: Seq<ExcludePattern>) -> Seq<Seq<char>> {
    patterns.map_values(|p: ExcludePattern| p@)
}

/// An identifier is excluded when at least one pattern matches it.
pub open spec fn excluded_by(patterns: Seq<Seq<char>>, identifier: Seq<char>) -> bool {
    exists|i: int| 0 <= i < patterns.len() && glob_matches(#[trigger] patterns[i], identifier)
}

/// The repositories that no pattern excludes, in the order of the listing.
pub open spec fn survivors(repos: Seq<RepoDescriptor>, patterns: Seq<Seq<char>>) -> Seq<
    RepoDescriptor,
> {
    repos.filter(|repo: RepoDescriptor| !excluded_by(patterns, repo.identifier_view()))
}

/// The position of the first text that is no glob expression, if there is one.
pub open spec fn first_invalid(texts: Seq<Seq<char>>) -> Option<int>
    decreases texts.len(),
{
    if texts.len() == 0 {
        None
    } else {
        match first_invalid(texts.drop_last()) {
            Some(i) => Some(i),
            None => if glob_syntax_ok(texts.last()) {
                None
            } else {
                Some(texts.len() - 1)
            },
        }
    }
}

/// Compiles every exclude pattern, in order, and stops at the first that is invalid.
pub fn compile_patterns(sources: &Vec<String>) -> (compiled: Result<Vec<ExcludePattern>, ConfigError>)
    ensures
        compiled is Ok <==> first_invalid(texts(sources@)) is None,
        compiled matches Ok(patterns) ==> pattern_texts(patterns@) == texts(sources@),
        compiled matches Err(ConfigError::InvalidPattern { index, pattern, .. }) ==> {
            &&& first_invalid(texts(sources@)) == Some(index as int)
            &&& index < sources.len()
            &&& pattern@ == sources[index as int]@
        },
{
    let mut patterns: Vec<ExcludePattern> = Vec::new();
    let mut i: usize = 0;
    while i < sources.len()
        invariant
            i <= sources.len(),
            first_invalid(texts(sources@).take(i as int)) is None,
            pattern_texts(patterns@) == texts(sources@).take(i as int),
        decreases sources.len() - i,
    {
        proof {
            let all = texts(sources@);
            assert(all.take(i + 1).drop_last() == all.take(i as int));
            assert(all.take(i + 1).last() == sources[i as int]@);
        }
        match ExcludePattern::new(sources[i].as_str()) {
            Ok(pattern) => {
                patterns.push(pattern);
                assert(pattern_texts(patterns@) == texts(sources@).take(i + 1));
            },
            Err(cause) => {
                proof {
                    lemma_first_invalid_is_stable(texts(sources@), i as int);
                }
                return Err(
                    ConfigError::InvalidPattern { index: i, pattern: sources[i].clone(), cause },
                );
            },
        }
        i += 1;
    }
    assert(texts(sources@).take(i as int) == texts(sources@));
    Ok(patterns)
}

/// Once a prefix holds an invalid text, the first invalid text of the whole is
/// the first of that prefix.
proof fn lemma_first_invalid_is_stable(texts: Seq<Seq<char>>, i: int)
    requires
        0 <= i < texts.len(),
        first_invalid(texts.take(i + 1)) == Some(i),
    ensures
        first_invalid(texts) == Some(i),
    decreases texts.len(),
{
    if texts.len() == i + 1 {
        assert(texts.take(i + 1) == texts);
    } else {
        assert(texts.drop_last().take(i + 1) == texts.take(i + 1));
        lemma_first_invalid_is_stable(texts.drop_last(), i);
    }
}

/// Tells whether any of `patterns` matches `identifier`.
pub fn is_excluded(identifier: &str, patterns: &Vec<ExcludePattern>) -> (excluded: bool)
    ensures
        excluded == excluded_by(pattern_texts(patterns@), identifier@),
{
    let mut i: usize = 0;
    while i < patterns.len()
        invariant
            i <= patterns.len(),
            forall|j: int|
                0 <= j < i ==> !glob_matches(#[trigger] pattern_texts(patterns@)[j], identifier@),
        decreases patterns.len() - i,
    {
        if patterns[i].matches(identifier) {
            assert(glob_matches(pattern_texts(patterns@)[i as int], identifier@));
            return true;
        }
        i += 1;
    }
    false
}

/// Marks, for each repository, whether a pattern excludes it.
pub fn exclusion_flags(repos: &Vec<RepoDescriptor>, patterns: &Vec<ExcludePattern>) -> (flags: Vec<
    bool,
>)
    ensures
        flags.len() == repos.len(),
        forall|i: int|
            0 <= i < repos.len() ==> flags[i] == excluded_by(
                pattern_texts(patterns@),
                #[trigger] repos[i].identifier_view(),
            ),
{
    let mut flags: Vec<bool> = Vec::new();
    let mut i: usize = 0;
    while i < repos.len()
        invariant
            i <= repos.len(),
            flags.len() == i,
            forall|j: int|
                0 <= j < i ==> flags[j] == excluded_by(
                    pattern_texts(patterns@),
                    #[trigger] repos[j].identifier_view(),
                ),
        decreases repos.len() - i,
    {
        flags.push(is_excluded(repos[i].identifier(), patterns));
        i += 1;
    }
    flags
}

/// The items whose flag is not set, in the order of the listing. An item without a
/// flag counts as not flagged.
pub open spec fn unflagged(items: Seq<RepoDescriptor>, flags: Seq<bool>) -> Seq<RepoDescriptor>
    decreases items.len(),
{
    if items.len() == 0 {
        Seq::empty()
    } else {
        let rest = unflagged(items.drop_last(), flags);
        let last = items.len() - 1;
        if last < flags.len() && flags[last] {
            rest
        } else {
            rest.push(items.last())
        }
    }
}

/// Keeps the repositories whose flag is not set, in the order of the listing.
pub fn retain_unflagged(repos: Vec<RepoDescriptor>, flags: &Vec<bool>) -> (kept: Vec<RepoDescriptor>)
    ensures
        kept@ == unflagged(repos@, flags@),
{
    let ghost all = repos@;
    assert(all.len() == repos.len());
    let mut kept: Vec<RepoDescriptor> = Vec::new();
    let mut i: usize = 0;
    for repo in it: repos
        invariant
            it.seq() == all,
            all.len() <= usize::MAX,
            i == it.index(),
            kept@ == unflagged(all.take(i as int), flags@),
    {
        proof {
            assert(all.take(i + 1).drop_last() == all.take(i as int));
        }
        if !(i < flags.len() && flags[i]) {
            kept.push(repo);
        }
        i += 1;
    }
    assert(all.take(i as int) == all);
    kept
}

/// Flags that say of each item whether a pattern excludes it pick out the survivors.
proof fn lemma_unflagged_are_survivors(
    items: Seq<RepoDescriptor>,
    flags: Seq<bool>,
    patterns: Seq<Seq<char>>,
)
    requires
        flags.len() >= items.len(),
        forall|i: int|
            0 <= i < items.len() ==> flags[i] == excluded_by(
                patterns,
                #[trigger] items[i].identifier_view(),
            ),
    ensures
        unflagged(items, flags) == survivors(items, patterns),
    decreases items.len(),
{
    reveal(Seq::filter);
    if items.len() > 0 {
        lemma_unflagged_are_survivors(items.drop_last(), flags, patterns);
        assert(items.last() == items[items.len() - 1]);
    }
}

/// Removes every repository whose identifier matches at least one pattern. The rest
/// keep their order.
pub fn filter_excluded(repos: Vec<RepoDescriptor>, patterns: &Vec<ExcludePattern>) -> (kept: Vec<
    RepoDescriptor,
>)
    ensures
        kept@ == survivors(repos@, pattern_texts(patterns@)),
{
    let flags = exclusion_flags(&repos, patterns);
    proof {
        lemma_unflagged_are_survivors(repos@, flags@, pattern_texts(patterns@));
    }
    retain_unflagged(repos, &flags)
}

/// Filtering is idempotent: what survived the patterns once survives them again, unchanged.
pub proof fn lemma_filter_is_idempotent(repos: Seq<RepoDescriptor>, patterns: Seq<Seq<char>>)
    ensures
        survivors(survivors(repos, patterns), patterns) == survivors(repos, patterns),
    decreases repos.len(),
{
    reveal(Seq::filter);
    if repos.len() > 0 {
        lemma_filter_is_idempotent(repos.drop_last(), patterns);
        let rest = survivors(repos.drop_last(), patterns);
        if !excluded_by(patterns, repos.last().identifier_view()) {
            assert(rest.push(repos.last()).drop_last() == rest);
        }
    }
}

/// Without patterns nothing is excluded: the list comes back unchanged, in the same order.
pub proof fn lemma_no_patterns_keep_everything(repos: Seq<RepoDescriptor>)
    ensures
        survivors(repos, Seq::empty()) == repos,
    decreases repos.len(),
{
    reveal(Seq::filter);
    if repos.len() > 0 {
        lemma_no_patterns_keep_everything(repos.drop_last());
        assert(repos.drop_last().push(repos.last()) == repos);
    }
}

} // verus!
