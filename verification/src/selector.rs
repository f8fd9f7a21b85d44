//! The file selector: which files of a tree are analysed, in which order,
//! and how much of each.

use crate::llm::schemas::github_response::{FileInfo, RepoInfo};
use crate::text::{
    chars_of, contains_any, contains_seq, ends_with_any, ends_with_seq, lemma_lex_antisymmetric,
    lemma_lex_total, lemma_lex_transitive, lex_le, lex_le_chars,
    str_contains, str_ends_with, text_views,
};
use vstd::prelude::*;

verus! {

/// A priority path: a README, a file with a "main" or "core" name fragment,
/// or an entry-point file under a source directory.
pub open spec fn is_priority_path(path: Seq<char>) -> bool {
    ends_with_seq(path, "README.md"@) || contains_seq(path, "main."@) || contains_seq(
        path,
        "core."@,
    ) || (contains_seq(path, "/src/"@) && (contains_seq(path, "mod.rs"@) || contains_seq(
        path,
        "lib.rs"@,
    ) || contains_seq(path, "index."@)))
}

/// Whether `path` is a priority path.
pub fn is_priority_file(path: &str) -> (b: bool)
    ensures
        b == is_priority_path(path@),
{
    str_ends_with(path, "README.md") || str_contains(path, "main.") || str_contains(path, "core.")
        || (str_contains(path, "/src/") && (str_contains(path, "mod.rs") || str_contains(
        path,
        "lib.rs",
    ) || str_contains(path, "index.")))
}

/// The selection order: priority paths first, and lexicographic order within
/// the priority paths and within the others.
pub open spec fn path_le(a: Seq<char>, b: Seq<char>) -> bool {
    if is_priority_path(a) == is_priority_path(b) {
        lex_le(a, b)
    } else {
        is_priority_path(a)
    }
}

/// Every two entries stand in selection order.
pub open spec fn is_ordered(s: Seq<Seq<char>>) -> bool {
    forall|i: int, j: int| 0 <= i < j < s.len() ==> path_le(#[trigger] s[i], #[trigger] s[j])
}

/// `sorted` holds exactly the entries of `all`, each as often as `all` does,
/// in selection order.
pub open spec fn is_arrangement(all: Seq<Seq<char>>, sorted: Seq<Seq<char>>) -> bool {
    is_ordered(sorted) && sorted.to_multiset() == all.to_multiset()
}

/// The smaller of two counts.
pub open spec fn min_count(a: nat, b: nat) -> nat {
    if a <= b {
        a
    } else {
        b
    }
}

/// `out` is what the selector yields for the candidates `all` and the cap
/// `max_files`: the first `min(max_files, all.len())` entries of the
/// candidates arranged in selection order.
pub open spec fn is_selection(all: Seq<Seq<char>>, max_files: nat, out: Seq<Seq<char>>) -> bool {
    exists|sorted: Seq<Seq<char>>| #[trigger]
        is_arrangement(all, sorted) && out == sorted.take(
            min_count(max_files, all.len()) as int,
        )
}

/// The selection order is total.
pub proof fn lemma_path_le_total(a: Seq<char>, b: Seq<char>)
    ensures
        path_le(a, b) || path_le(b, a),
{
    lemma_lex_total(a, b);
}

/// The selection order is transitive.
pub proof fn lemma_path_le_transitive(a: Seq<char>, b: Seq<char>, c: Seq<char>)
    requires
        path_le(a, b),
        path_le(b, c),
    ensures
        path_le(a, c),
{
    if is_priority_path(a) == is_priority_path(b) && is_priority_path(b) == is_priority_path(c) {
        lemma_lex_transitive(a, b, c);
    }
}

/// Paths that are each at most the other in selection order are the same.
pub proof fn lemma_path_le_antisymmetric(a: Seq<char>, b: Seq<char>)
    requires
        path_le(a, b),
        path_le(b, a),
    ensures
        a == b,
{
    lemma_lex_antisymmetric(a, b);
}

/// File ordering: in an ordered list every priority path precedes every
/// other path, and within each of the two groups the paths stand in
/// lexicographic order.
pub proof fn lemma_priority_first(s: Seq<Seq<char>>, i: int, j: int)
    requires
        is_ordered(s),
        0 <= i < j < s.len(),
    ensures
        is_priority_path(s[j]) ==> is_priority_path(s[i]),
        is_priority_path(s[i]) == is_priority_path(s[j]) ==> lex_le(s[i], s[j]),
{
    assert(path_le(s[i], s[j]));
}

/// The arrangement of a list of candidates is unique: two ordered lists
/// that hold the same entries equally often are the same list. So the
/// selection is determined by the candidates and the cap alone, whatever
/// order the candidates were listed in.
pub proof fn lemma_arrangement_unique(all: Seq<Seq<char>>, a: Seq<Seq<char>>, b: Seq<Seq<char>>)
    requires
        is_arrangement(all, a),
        is_arrangement(all, b),
    ensures
        a == b,
    decreases a.len(),
{
    broadcast use vstd::seq_lib::group_to_multiset_ensures;

    assert(a.len() == b.len()) by {
        assert(a.to_multiset().len() == b.to_multiset().len());
    }
    if a.len() == 0 {
        assert(a =~= b);
    } else {
        assert(a.contains(a[0]));
        assert(b.contains(b[0]));
        assert(b.to_multiset().count(a[0]) > 0);
        assert(a.to_multiset().count(b[0]) > 0);
        assert(b.contains(a[0]));
        assert(a.contains(b[0]));
        let i = choose|i: int| 0 <= i < b.len() && b[i] == a[0];
        let j = choose|j: int| 0 <= j < a.len() && a[j] == b[0];
        if i > 0 {
            assert(path_le(b[0], b[i]));
        } else {
            lemma_path_le_total(b[0], b[0]);
        }
        if j > 0 {
            assert(path_le(a[0], a[j]));
        } else {
            lemma_path_le_total(a[0], a[0]);
        }
        lemma_path_le_antisymmetric(a[0], b[0]);
        let ta = a.drop_first();
        let tb = b.drop_first();
        assert(a.remove(0) =~= ta);
        assert(b.remove(0) =~= tb);
        assert(ta.to_multiset() == tb.to_multiset());
        assert(is_ordered(ta)) by {
            assert forall|x: int, y: int| 0 <= x < y < ta.len() implies path_le(
                #[trigger] ta[x],
                #[trigger] ta[y],
            ) by {
                assert(path_le(a[x + 1], a[y + 1]));
            }
        }
        assert(is_ordered(tb)) by {
            assert forall|x: int, y: int| 0 <= x < y < tb.len() implies path_le(
                #[trigger] tb[x],
                #[trigger] tb[y],
            ) by {
                assert(path_le(b[x + 1], b[y + 1]));
            }
        }
        lemma_arrangement_unique(ta, ta, tb);
        assert forall|k: int| 0 <= k < a.len() implies a[k] == b[k] by {
            if k > 0 {
                assert(a[k] == ta[k - 1]);
                assert(b[k] == tb[k - 1]);
            }
        }
        assert(a =~= b);
    }
}

/// A prefix of an ordered list is ordered.
pub proof fn lemma_prefix_ordered(s: Seq<Seq<char>>, n: int)
    requires
        is_ordered(s),
        0 <= n <= s.len(),
    ensures
        is_ordered(s.take(n)),
{
    let t = s.take(n);
    assert forall|i: int, j: int| 0 <= i < j < t.len() implies path_le(
        #[trigger] t[i],
        #[trigger] t[j],
    ) by {
        assert(path_le(s[i], s[j]));
    }
}

/// A path with what the ordering needs to know of it.
struct PathKey {
    priority: bool,
    chars: Vec<char>,
}

impl PathKey {
    spec fn describes(&self, path: Seq<char>) -> bool {
        self.chars@ == path && self.priority == is_priority_path(path)
    }
}

fn key_of(path: &str) -> (key: PathKey)
    ensures
        key.describes(path@),
{
    PathKey { priority: is_priority_file(path), chars: chars_of(path) }
}

fn key_le(a: &PathKey, b: &PathKey) -> (r: bool)
    requires
        a.describes(a.chars@),
        b.describes(b.chars@),
    ensures
        r == path_le(a.chars@, b.chars@),
{
    if a.priority == b.priority {
        lex_le_chars(&a.chars, &b.chars)
    } else {
        a.priority
    }
}

/// Inserting `x` at a position where everything before it is at most `x`
/// and everything from there on is at least `x` keeps a list ordered.
proof fn lemma_insert_keeps_order(s: Seq<Seq<char>>, p: int, x: Seq<char>)
    requires
        is_ordered(s),
        0 <= p <= s.len(),
        forall|k: int| 0 <= k < p ==> path_le(#[trigger] s[k], x),
        p < s.len() ==> path_le(x, s[p]),
    ensures
        is_ordered(s.insert(p, x)),
{
    let t = s.insert(p, x);
    assert forall|i: int, j: int| 0 <= i < j < t.len() implies path_le(
        #[trigger] t[i],
        #[trigger] t[j],
    ) by {
        if j == p {
            assert(t[i] == s[i]);
        } else if i == p {
            assert(t[j] == s[j - 1]);
            if j - 1 > p {
                assert(path_le(s[p], s[j - 1]));
                lemma_path_le_transitive(x, s[p], s[j - 1]);
            }
        } else {
            let si = if i < p { i } else { i - 1 };
            let sj = if j < p { j } else { j - 1 };
            assert(t[i] == s[si]);
            assert(t[j] == s[sj]);
            assert(path_le(s[si], s[sj]));
        }
    }
}

/// Arranges paths in selection order.
pub fn order_paths(paths: &Vec<String>) -> (out: Vec<String>)
    ensures
        is_arrangement(text_views(paths@), text_views(out@)),
        out.len() == paths.len(),
{
    let mut out: Vec<String> = Vec::new();
    let mut keys: Vec<PathKey> = Vec::new();
    let mut idx: usize = 0;
    proof {
        assert(text_views(out@) =~= text_views(paths@).take(0));
    }
    while idx < paths.len()
        invariant
            idx <= paths.len(),
            out.len() == idx,
            keys.len() == idx,
            forall|k: int| 0 <= k < idx ==> (#[trigger] keys[k]).describes(out[k]@),
            is_ordered(text_views(out@)),
            text_views(out@).to_multiset() == text_views(paths@).take(idx as int).to_multiset(),
        decreases paths.len() - idx,
    {
        let key = key_of(paths[idx].as_str());
        let ghost x = paths[idx as int]@;
        let mut p: usize = 0;
        while p < keys.len() && key_le(&keys[p], &key)
            invariant
                p <= keys.len(),
                keys.len() == idx,
                out.len() == idx,
                key.describes(x),
                forall|k: int| 0 <= k < idx ==> (#[trigger] keys[k]).describes(out[k]@),
                forall|k: int| 0 <= k < p ==> path_le(#[trigger] text_views(out@)[k], x),
            decreases keys.len() - p,
        {
            assert(text_views(out@)[p as int] == keys[p as int].chars@);
            p += 1;
        }
        proof {
            let s = text_views(out@);
            if p < s.len() {
                assert(s[p as int] == keys[p as int].chars@);
                lemma_path_le_total(x, s[p as int]);
            }
            lemma_insert_keeps_order(s, p as int, x);
            vstd::seq_lib::to_multiset_insert(s, p as int, x);
            vstd::seq_lib::to_multiset_build(text_views(paths@).take(idx as int), x);
            assert(text_views(paths@).take(idx + 1) =~= text_views(paths@).take(idx as int).push(x));
        }
        let ghost before = out@;
        let ghost keys_before = keys@;
        out.insert(p, paths[idx].clone());
        keys.insert(p, key);
        proof {
            assert(text_views(out@) =~= text_views(before).insert(p as int, x));
            assert forall|k: int| 0 <= k < idx + 1 implies (#[trigger] keys[k]).describes(
                out[k]@,
            ) by {
                if k < p {
                    assert(keys[k] == keys_before[k]);
                } else if k > p {
                    assert(keys[k] == keys_before[k - 1]);
                }
            }
        }
        idx += 1;
    }
    proof {
        assert(text_views(paths@).take(idx as int) =~= text_views(paths@));
    }
    out
}

/// The file selector on paths: arranges the candidates in selection order
/// and keeps at most `max_files` of them, from the front.
pub fn select_paths(paths: &Vec<String>, max_files: usize) -> (out: Vec<String>)
    ensures
        is_selection(text_views(paths@), max_files as nat, text_views(out@)),
        is_ordered(text_views(out@)),
        out.len() == min_count(max_files as nat, paths.len() as nat),
{
    let mut out = order_paths(paths);
    let ghost sorted = text_views(out@);
    out.truncate(max_files);
    proof {
        let n = min_count(max_files as nat, paths.len() as nat) as int;
        assert(text_views(out@) =~= sorted.take(n));
        lemma_prefix_ordered(sorted, n);
        assert(is_arrangement(text_views(paths@), sorted));
    }
    out
}

/// The file name endings of text-like source files.
pub open spec fn code_extensions() -> Seq<Seq<char>> {
    seq![
        ".py"@,
        ".js"@,
        ".ts"@,
        ".java"@,
        ".c"@,
        ".cpp"@,
        ".h"@,
        ".hpp"@,
        ".go"@,
        ".rs"@,
        ".rb"@,
        ".php"@,
        ".md"@,
        ".cs"@,
        ".jsx"@,
        ".tsx"@,
        ".css"@,
        ".scss"@,
        ".less"@,
        ".html"@,
        ".xml"@,
        ".json"@,
        ".yaml"@,
        ".yml"@,
        ".toml"@,
        ".sh"@,
        ".bash"@,
        ".ps1"@,
        ".sql"@,
        ".graphql"@,
        ".proto"@,
        ".kt"@,
        ".swift"@,
    ]
}

/// Directory fragments of build, dependency and version-control trees.
pub open spec fn excluded_dirs() -> Seq<Seq<char>> {
    seq![
        "/.git/"@,
        "/node_modules/"@,
        "/target/"@,
        "/build/"@,
        "/dist/"@,
        "/bin/"@,
        "/obj/"@,
        "/.idea/"@,
        "/.vscode/"@,
        "/vendor/"@,
        "/deps/"@,
        "/_build/"@,
        "/venv/"@,
        "/__pycache__/"@,
    ]
}

fn code_extension_list() -> (list: Vec<&'static str>)
    ensures
        list@.len() == code_extensions().len(),
        forall|k: int| 0 <= k < list@.len() ==> (#[trigger] list@[k])@ == code_extensions()[k],
{
    let mut list: Vec<&'static str> = Vec::new();
    list.push(".py");
    list.push(".js");
    list.push(".ts");
    list.push(".java");
    list.push(".c");
    list.push(".cpp");
    list.push(".h");
    list.push(".hpp");
    list.push(".go");
    list.push(".rs");
    list.push(".rb");
    list.push(".php");
    list.push(".md");
    list.push(".cs");
    list.push(".jsx");
    list.push(".tsx");
    list.push(".css");
    list.push(".scss");
    list.push(".less");
    list.push(".html");
    list.push(".xml");
    list.push(".json");
    list.push(".yaml");
    list.push(".yml");
    list.push(".toml");
    list.push(".sh");
    list.push(".bash");
    list.push(".ps1");
    list.push(".sql");
    list.push(".graphql");
    list.push(".proto");
    list.push(".kt");
    list.push(".swift");
    list
}

fn excluded_dir_list() -> (list: Vec<&'static str>)
    ensures
        list@.len() == excluded_dirs().len(),
        forall|k: int| 0 <= k < list@.len() ==> (#[trigger] list@[k])@ == excluded_dirs()[k],
{
    let mut list: Vec<&'static str> = Vec::new();
    list.push("/.git/");
    list.push("/node_modules/");
    list.push("/target/");
    list.push("/build/");
    list.push("/dist/");
    list.push("/bin/");
    list.push("/obj/");
    list.push("/.idea/");
    list.push("/.vscode/");
    list.push("/vendor/");
    list.push("/deps/");
    list.push("/_build/");
    list.push("/venv/");
    list.push("/__pycache__/");
    list
}

/// Whether a path names a text-like source file.
pub open spec fn is_code_path(path: Seq<char>) -> bool {
    exists|k: int| 0 <= k < code_extensions().len() && ends_with_seq(path, #[trigger] code_extensions()[k])
}

/// Whether a path lies in an excluded directory.
pub open spec fn is_excluded_path(path: Seq<char>) -> bool {
    exists|k: int| 0 <= k < excluded_dirs().len() && contains_seq(path, #[trigger] excluded_dirs()[k])
}

/// The marker appended to content that was capped.
pub open spec fn truncation_marker() -> Seq<char> {
    "...\n(内容省略)..."@
}

/// Truncation: content longer than `max_chars` characters becomes its first
/// `max_chars` characters followed by the marker; other content is unchanged.
pub open spec fn capped(content: Seq<char>, max_chars: nat) -> Seq<char> {
    if content.len() > max_chars {
        content.take(max_chars as int) + truncation_marker()
    } else {
        content
    }
}

/// Caps content at `max_chars` characters, never splitting a character.
pub fn cap_content(content: &str, max_chars: usize) -> (out: String)
    ensures
        out@ == capped(content@, max_chars as nat),
{
    let len: usize = content.unicode_len();
    if len > max_chars {
        let mut out = String::from_str(content.substring_char(0, max_chars));
        out.append("...\n(内容省略)...");
        out
    } else {
        String::from_str(content)
    }
}

/// Why a selection yielded nothing to analyse.
#[derive(Clone, Copy, Debug, PartialEq, Eq, Structural)]
pub enum SelectionError {
    /// No eligible file was found for the target.
    EmptyResult,
}

/// Passes a selection on, or signals `EmptyResult` where it is empty.
pub fn require_files(files: Vec<FileInfo>) -> (r: Result<Vec<FileInfo>, SelectionError>)
    ensures
        files@.len() == 0 ==> r == Err::<Vec<FileInfo>, SelectionError>(SelectionError::EmptyResult),
        files@.len() > 0 ==> r == Ok::<Vec<FileInfo>, SelectionError>(files),
{
    if files.len() == 0 {
        Err(SelectionError::EmptyResult)
    } else {
        Ok(files)
    }
}

/// Access settings and limits for retrieving a target's files.
pub struct GitHubClient {
    pub token: String,
    pub output_dir: String,
    pub max_file_size: usize,
}

impl GitHubClient {
    /// A client with the given credential, working directory and per-file
    /// character cap.
    pub fn new(token: String, output_dir: String, max_file_size: usize) -> (c: Self)
        ensures
            c.token == token,
            c.output_dir == output_dir,
            c.max_file_size == max_file_size,
    {
        GitHubClient { token, output_dir, max_file_size }
    }

    /// The directory a target is cloned into: `<output_dir>/repos/<owner>_<repo>`.
    pub open spec fn repo_dir_of(&self, repo_info: &RepoInfo) -> Seq<char> {
        self.output_dir@ + "/repos/"@ + repo_info.owner@ + "_"@ + repo_info.repo@
    }

    /// The address a target is cloned from, credential included.
    pub open spec fn clone_url_of(&self, repo_info: &RepoInfo) -> Seq<char> {
        "https://"@ + self.token@ + "@github.com/"@ + repo_info.owner@ + "/"@ + repo_info.repo@
            + ".git"@
    }

    /// The directory a target is cloned into.
    pub fn repo_dir(&self, repo_info: &RepoInfo) -> (dir: String)
        ensures
            dir@ == self.repo_dir_of(repo_info),
    {
        let mut dir = self.output_dir.clone();
        dir.append("/repos/");
        dir.append(repo_info.owner.as_str());
        dir.append("_");
        dir.append(repo_info.repo.as_str());
        dir
    }

    /// The address a target is cloned from.
    pub fn clone_url(&self, repo_info: &RepoInfo) -> (url: String)
        ensures
            url@ == self.clone_url_of(repo_info),
    {
        let mut url = String::from_str("https://");
        url.append(self.token.as_str());
        url.append("@github.com/");
        url.append(repo_info.owner.as_str());
        url.append("/");
        url.append(repo_info.repo.as_str());
        url.append(".git");
        url
    }

    /// Whether a path names a text-like source file.
    pub fn is_code_file(path: &str) -> (b: bool)
        ensures
            b == is_code_path(path@),
    {
        let list = code_extension_list();
        let b = ends_with_any(path, &list);
        proof {
            if b {
                let k = choose|k: int| 0 <= k < list.len() && ends_with_seq(path@, (#[trigger] list[k])@);
                assert(ends_with_seq(path@, code_extensions()[k]));
            }
            if is_code_path(path@) {
                let k = choose|k: int|
                    0 <= k < code_extensions().len() && ends_with_seq(
                        path@,
                        #[trigger] code_extensions()[k],
                    );
                assert(ends_with_seq(path@, list[k]@));
            }
        }
        b
    }

    /// Whether a path lies in an excluded directory.
    pub fn is_excluded_dir(path: &str) -> (b: bool)
        ensures
            b == is_excluded_path(path@),
    {
        let list = excluded_dir_list();
        let b = contains_any(path, &list);
        proof {
            if b {
                let k = choose|k: int| 0 <= k < list.len() && contains_seq(path@, (#[trigger] list[k])@);
                assert(contains_seq(path@, excluded_dirs()[k]));
            }
            if is_excluded_path(path@) {
                let k = choose|k: int|
                    0 <= k < excluded_dirs().len() && contains_seq(
                        path@,
                        #[trigger] excluded_dirs()[k],
                    );
                assert(contains_seq(path@, list[k]@));
            }
        }
        b
    }

    /// Whether a walked path is a candidate for selection: a text-like
    /// source file outside the excluded directories.
    pub fn is_candidate(path: &str) -> (b: bool)
        ensures
            b == (is_code_path(path@) && !is_excluded_path(path@)),
    {
        Self::is_code_file(path) && !Self::is_excluded_dir(path)
    }

    /// The file selector for a target: the candidates arranged in selection
    /// order and cut to the target's cap, or `EmptyResult` where that leaves
    /// nothing, which is so exactly when there is no candidate or the cap
    /// is zero.
    pub fn select(&self, repo_info: &RepoInfo, candidates: &Vec<String>) -> (r: Result<
        Vec<String>,
        SelectionError,
    >)
        ensures
            match r {
                Ok(out) => {
                    &&& candidates.len() > 0 && repo_info.max_files > 0
                    &&& is_selection(
                        text_views(candidates@),
                        repo_info.max_files as nat,
                        text_views(out@),
                    )
                    &&& is_ordered(text_views(out@))
                    &&& out.len() == min_count(
                        repo_info.max_files as nat,
                        candidates.len() as nat,
                    )
                },
                Err(e) => e == SelectionError::EmptyResult && (candidates.len() == 0
                    || repo_info.max_files == 0),
            },
    {
        let out = select_paths(candidates, repo_info.max_files);
        if out.len() == 0 {
            Err(SelectionError::EmptyResult)
        } else {
            Ok(out)
        }
    }

    /// The artifact for a selected file: its relative path and its content,
    /// capped at this client's character limit.
    pub fn make_file(&self, path: String, content: &str) -> (file: FileInfo)
        ensures
            file.path == path,
            file.content@ == capped(content@, self.max_file_size as nat),
    {
        FileInfo { path, content: cap_content(content, self.max_file_size) }
    }
}

} // verus!
