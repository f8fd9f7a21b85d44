//! Run settings: the configuration record, the values that override it, and
//! the resolution of `${NAME}` references in configuration text.

use crate::llm::prompts::pair_views;
use crate::llm::schemas::github_response::RepoInfo;
use crate::llm::schemas::openai_response::Endpoint;
use crate::text::{replace_all, replaced, text_views};
use vstd::prelude::*;

verus! {

/// The settings of a run.
#[derive(Clone, Debug)]
pub struct Config {
    pub github_token: String,
    pub output_dir: String,
    pub endpoints: Vec<Endpoint>,
    pub repos: Vec<RepoInfo>,
    pub concurrency: usize,
    pub max_files: usize,
    pub max_file_size: usize,
}

/// Values given on the command line; each one that is present replaces the
/// configured value.
#[derive(Clone, Debug)]
pub struct Overrides {
    pub github_token: Option<String>,
    pub output_dir: Option<String>,
    pub concurrency: Option<usize>,
    pub max_files: Option<usize>,
    pub max_file_size: Option<usize>,
}

/// The configured value, or the overriding one where there is one.
pub open spec fn overridden<T>(configured: T, given: Option<T>) -> T {
    match given {
        Some(v) => v,
        None => configured,
    }
}

/// Applies the overriding values to a configuration. Endpoints and targets
/// cannot be overridden.
pub fn apply_overrides(config: Config, overrides: Overrides) -> (out: Config)
    ensures
        out.github_token == overridden(config.github_token, overrides.github_token),
        out.output_dir == overridden(config.output_dir, overrides.output_dir),
        out.concurrency == overridden(config.concurrency, overrides.concurrency),
        out.max_files == overridden(config.max_files, overrides.max_files),
        out.max_file_size == overridden(config.max_file_size, overrides.max_file_size),
        out.endpoints == config.endpoints,
        out.repos == config.repos,
{
    let mut out = config;
    match overrides.github_token {
        Some(token) => {
            out.github_token = token;
        },
        None => {},
    }
    match overrides.output_dir {
        Some(dir) => {
            out.output_dir = dir;
        },
        None => {},
    }
    match overrides.concurrency {
        Some(n) => {
            out.concurrency = n;
        },
        None => {},
    }
    match overrides.max_files {
        Some(n) => {
            out.max_files = n;
        },
        None => {},
    }
    match overrides.max_file_size {
        Some(n) => {
            out.max_file_size = n;
        },
        None => {},
    }
    out
}

/// The settings used where no configuration file can be read: the given
/// credential and endpoints, and the built-in limits.
pub fn default_config(github_token: String, endpoints: Vec<Endpoint>, repos: Vec<RepoInfo>) -> (out:
    Config)
    ensures
        out.github_token == github_token,
        out.output_dir@ == "llm_debates"@,
        out.endpoints == endpoints,
        out.repos == repos,
        out.concurrency == 8,
        out.max_files == 50,
        out.max_file_size == 100000,
{
    Config {
        github_token,
        output_dir: String::from_str("llm_debates"),
        endpoints,
        repos,
        concurrency: 8,
        max_files: 50,
        max_file_size: 100000,
    }
}

/// The texts of the successive non-overlapping matches of the regular
/// expression `pattern` in `text`, as the `regex` crate finds them from left
/// to right; `None` where the crate does not accept `pattern`.
pub uninterp spec fn regex_matches(pattern: Seq<char>, text: Seq<char>) -> Option<Seq<Seq<char>>>;

/// The view of an optional list of strings.
pub open spec fn texts_of(v: Option<Vec<String>>) -> Option<Seq<Seq<char>>> {
    match v {
        Some(list) => Some(text_views(list@)),
        None => None,
    }
}

/// Compiles `pattern` with `regex::Regex::new` and collects the texts that
/// `Regex::find_iter` yields on `text`. Trusted: the result is a function of
/// the two arguments alone, named `regex_matches`; it is `None` where
/// `Regex::new` reports an error.
#[verifier::external_body]
fn find_matches(pattern: &str, text: &str) -> (r: Option<Vec<String>>)
    ensures
        texts_of(r) == regex_matches(pattern@, text@),
{
    match regex::Regex::new(pattern) {
        Ok(re) => Some(re.find_iter(text).map(|m| m.as_str().to_string()).collect()),
        Err(_) => None,
    }
}

/// The expression that matches a reference to a named value: `${NAME}`, the
/// name made of ASCII letters, digits and underscores.
pub open spec fn reference_pattern() -> Seq<char> {
    "\\$\\{([A-Za-z0-9_]+)\\}"@
}

/// The name inside a reference: the reference without its first two
/// characters and its last one.
pub open spec fn reference_name(reference: Seq<char>) -> Seq<char> {
    if reference.len() >= 3 {
        reference.subrange(2, reference.len() - 1)
    } else {
        Seq::empty()
    }
}

/// Each reference paired with the name inside it.
pub open spec fn named_references(references: Seq<Seq<char>>) -> Seq<(Seq<char>, Seq<char>)> {
    Seq::new(references.len(), |i: int| (references[i], reference_name(references[i])))
}

/// Pairs each reference with the name inside it.
pub fn references_in(references: &Vec<String>) -> (out: Vec<(String, String)>)
    ensures
        pair_views(out@) == named_references(text_views(references@)),
{
    let mut out: Vec<(String, String)> = Vec::new();
    let mut i: usize = 0;
    while i < references.len()
        invariant
            i <= references.len(),
            out.len() == i,
            forall|k: int|
                0 <= k < i ==> (#[trigger] out[k]).0@ == references[k]@ && out[k].1@
                    == reference_name(references[k]@),
        decreases references.len() - i,
    {
        let reference: &str = references[i].as_str();
        let len: usize = reference.unicode_len();
        let name = if len >= 3 {
            String::from_str(reference.substring_char(2, len - 1))
        } else {
            String::new()
        };
        out.push((String::from_str(reference), name));
        i += 1;
    }
    assert(pair_views(out@) =~= named_references(text_views(references@)));
    out
}

/// The references `${NAME}` in `input`, from left to right, each with its
/// name; none where the search could not be made.
pub fn env_var_references(input: &str) -> (out: Vec<(String, String)>)
    ensures
        pair_views(out@) == (match regex_matches(reference_pattern(), input@) {
            Some(references) => named_references(references),
            None => Seq::empty(),
        }),
{
    match find_matches("\\$\\{([A-Za-z0-9_]+)\\}", input) {
        Some(references) => references_in(&references),
        None => {
            let out: Vec<(String, String)> = Vec::new();
            assert(pair_views(out@) =~= Seq::empty());
            out
        },
    }
}

/// `text` after replacing, pair by pair and in order, every occurrence of a
/// pair's first text by its second.
pub open spec fn substituted(text: Seq<char>, replacements: Seq<(Seq<char>, Seq<char>)>) -> Seq<
    char,
>
    decreases replacements.len(),
{
    if replacements.len() == 0 {
        text
    } else {
        replaced(
            substituted(text, replacements.drop_last()),
            replacements.last().0,
            replacements.last().1,
        )
    }
}

/// Resolves references in `input`: replaces, pair by pair and in order,
/// every occurrence of a reference by the value found for it.
pub fn resolve_env_vars(input: &str, replacements: &Vec<(String, String)>) -> (out: String)
    ensures
        out@ == substituted(input@, pair_views(replacements@)),
{
    let mut out = String::from_str(input);
    let mut i: usize = 0;
    proof {
        assert(pair_views(replacements@).take(0).len() == 0);
    }
    while i < replacements.len()
        invariant
            i <= replacements.len(),
            out@ == substituted(input@, pair_views(replacements@).take(i as int)),
        decreases replacements.len() - i,
    {
        proof {
            let now = pair_views(replacements@).take(i + 1);
            assert(now.drop_last() =~= pair_views(replacements@).take(i as int));
            assert(now.last() == (replacements[i as int].0@, replacements[i as int].1@));
        }
        out = replace_all(out.as_str(), replacements[i].0.as_str(), replacements[i].1.as_str());
        i += 1;
    }
    proof {
        assert(pair_views(replacements@).take(i as int) =~= pair_views(replacements@));
    }
    out
}

} // verus!
