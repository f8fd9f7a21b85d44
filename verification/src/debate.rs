//! The analysis dimensions and the prompts that open a conversation.

use crate::llm::prompts::{pair_views, render_template_doubled, rendered_doubled};
use crate::llm::schemas::github_response::{FileInfo, FileView, RepoInfo};
use crate::text::{
    contains_seq, decimal, decimal_string, first_chars, str_contains, take_chars,
};
use vstd::prelude::*;

verus! {

/// The analysis dimensions, in the order in which work items are made.
pub open spec fn debate_types() -> Seq<Seq<char>> {
    seq![
        "コードレビュー・分析"@,
        "アーキテクチャの強み・弱み評価"@,
        "実装の代替アプローチ提案"@,
        "セキュリティ脆弱性の検出"@,
        "パフォーマンス最適化の提案"@,
        "APIデザインの批評"@,
        "プロジェクトのロードマップ予測"@,
        "ライセンスとオープンソースコミュニティへの影響分析"@,
    ]
}

/// The analysis dimensions.
pub fn get_debate_types() -> (list: Vec<String>)
    ensures
        list@.len() == debate_types().len(),
        forall|k: int| 0 <= k < list@.len() ==> (#[trigger] list@[k])@ == debate_types()[k],
{
    let mut list: Vec<String> = Vec::new();
    list.push(String::from_str("コードレビュー・分析"));
    list.push(String::from_str("アーキテクチャの強み・弱み評価"));
    list.push(String::from_str("実装の代替アプローチ提案"));
    list.push(String::from_str("セキュリティ脆弱性の検出"));
    list.push(String::from_str("パフォーマンス最適化の提案"));
    list.push(String::from_str("APIデザインの批評"));
    list.push(String::from_str("プロジェクトのロードマップ予測"));
    list.push(String::from_str("ライセンスとオープンソースコミュニティへの影響分析"));
    list
}

/// The views of a list of files, entry by entry.
pub open spec fn file_views(files: Seq<FileInfo>) -> Seq<FileView> {
    Seq::new(files.len(), |i: int| files[i]@)
}

/// Text used where no README is among the files.
pub open spec fn missing_readme() -> Seq<char> {
    "README.mdが見つかりませんでした。"@
}

/// The content of the first file whose path contains `README.md`, or the
/// text for a missing README.
pub open spec fn readme_of(files: Seq<FileView>) -> Seq<char>
    decreases files.len(),
{
    if files.len() == 0 {
        missing_readme()
    } else if contains_seq(files[0].path, "README.md"@) {
        files[0].content
    } else {
        readme_of(files.drop_first())
    }
}

/// One line per file, `- ` and the path, the lines joined by line breaks.
pub open spec fn file_summary_of(files: Seq<FileView>) -> Seq<char>
    decreases files.len(),
{
    if files.len() == 0 {
        Seq::empty()
    } else if files.len() == 1 {
        "- "@ + files[0].path
    } else {
        file_summary_of(files.drop_last()) + "\n"@ + "- "@ + files.last().path
    }
}

/// Number of bytes of content beyond which a sample is shortened.
pub const SAMPLE_BYTE_LIMIT: usize = 2000;

/// Number of characters kept of a shortened sample.
pub const SAMPLE_CHARS: usize = 2000;

/// Number of files sampled.
pub const SAMPLE_FILES: usize = 5;

/// Number of characters kept of the README.
pub const README_CHARS: usize = 1000;

/// Length in bytes of the UTF-8 encoding of a text, as a machine word.
pub open spec fn byte_len(content: Seq<char>) -> usize {
    vstd::utf8::encode_utf8(content).len() as usize
}

/// A file's sample: content of more than `SAMPLE_BYTE_LIMIT` bytes is cut to
/// its first `SAMPLE_CHARS` characters and marked as shortened.
pub open spec fn sample_of(content: Seq<char>) -> Seq<char> {
    if byte_len(content) > SAMPLE_BYTE_LIMIT {
        first_chars(content, SAMPLE_CHARS as nat) + "...\n(省略)..."@
    } else {
        content
    }
}

/// The samples of all the given files, each under a header with its path.
pub open spec fn samples_of(files: Seq<FileView>) -> Seq<char>
    decreases files.len(),
{
    if files.len() == 0 {
        Seq::empty()
    } else {
        samples_of(files.drop_last()) + "\n--- "@ + files.last().path + " ---\n"@ + sample_of(
            files.last().content,
        )
    }
}

/// The samples of the first `SAMPLE_FILES` files.
pub open spec fn file_samples_of(files: Seq<FileView>) -> Seq<char> {
    if files.len() <= SAMPLE_FILES {
        samples_of(files)
    } else {
        samples_of(files.take(SAMPLE_FILES as int))
    }
}

/// The values a system prompt is built from.
pub struct PromptParts {
    pub owner: Seq<char>,
    pub repo: Seq<char>,
    pub debate_type: Seq<char>,
    pub file_count: Seq<char>,
    pub file_summary: Seq<char>,
    pub readme: Seq<char>,
    pub file_samples: Seq<char>,
}

/// The values for a target, its files and an analysis dimension.
pub open spec fn parts_of(
    owner: Seq<char>,
    repo: Seq<char>,
    files: Seq<FileView>,
    debate_type: Seq<char>,
) -> PromptParts {
    PromptParts {
        owner,
        repo,
        debate_type,
        file_count: decimal(files.len()),
        file_summary: file_summary_of(files),
        readme: first_chars(readme_of(files), README_CHARS as nat),
        file_samples: file_samples_of(files),
    }
}

/// The variables handed to a template, in the order of substitution.
pub open spec fn variables_of(parts: PromptParts) -> Seq<(Seq<char>, Seq<char>)> {
    seq![
        ("owner"@, parts.owner),
        ("repo"@, parts.repo),
        ("debate_type"@, parts.debate_type),
        ("file_count"@, parts.file_count),
        ("file_summary"@, parts.file_summary),
        ("readme"@, parts.readme),
        ("file_samples"@, parts.file_samples),
    ]
}

/// The built-in system prompt, used where no template is available.
pub open spec fn fallback_prompt(parts: PromptParts) -> Seq<char> {
    "あなたは高度なAIエンジニアとして、GitHubリポジトリ「"@
        + parts.owner
        + "/"@
        + parts.repo
        + "」の分析を行います。\nこのリポジトリについて「"@
        + parts.debate_type
        + "」という観点から詳細に議論してください。\n\n【リポジトリ情報】\n所有者: "@
        + parts.owner
        + "\nリポジトリ名: "@
        + parts.repo
        + "\nファイル数: "@
        + parts.file_count
        + "\n\n【ファイル一覧】\n"@
        + parts.file_summary
        + "\n\n【README概要】\n"@
        + parts.readme
        + "\n\n【主要ファイルサンプル】\n"@
        + parts.file_samples
        + "\n\nあなたの任務:\n\n1. このリポジトリのコードを詳細に分析し、「"@
        + parts.debate_type
        + "」の観点から深く考察してください\n2. 技術的な長所・短所を特定し、具体的なコード例を引用してください\n3. あなたの専門知識に基づいた改善案や代替アプローチを提案してください\n4. 業界のベストプラクティスと比較した評価を行ってください\n5. このプロジェクトの将来性や発展方向について予測してください\n\nできるだけ具体的なコード例や技術的詳細に基づいて、深い洞察を提供してください。"@
}

/// The system prompt: the template rendered with the variables, or the
/// built-in prompt where there is no template.
pub open spec fn system_prompt_of(parts: PromptParts, template: Option<Seq<char>>) -> Seq<char> {
    match template {
        Some(t) => rendered_doubled(t, variables_of(parts)),
        None => fallback_prompt(parts),
    }
}

/// The opening user message of a conversation.
pub open spec fn initial_message_of(owner: Seq<char>, repo: Seq<char>, debate_type: Seq<char>) -> Seq<
    char,
> {
    "「"@ + owner + "/"@ + repo + "」リポジトリを「"@ + debate_type
        + "」の観点から分析します。まず、このプロジェクトの概要と主要コンポーネントを特定しましょう。"@
}

/// The content of the first README among the files.
pub fn find_readme(files: &Vec<FileInfo>) -> (readme: String)
    ensures
        readme@ == readme_of(file_views(files@)),
{
    let mut i: usize = 0;
    proof {
        assert(file_views(files@).skip(0) =~= file_views(files@));
    }
    while i < files.len()
        invariant
            i <= files.len(),
            readme_of(file_views(files@)) == readme_of(file_views(files@).skip(i as int)),
        decreases files.len() - i,
    {
        proof {
            let rest = file_views(files@).skip(i as int);
            assert(rest[0] == files[i as int]@);
            assert(rest.drop_first() =~= file_views(files@).skip(i + 1));
        }
        if str_contains(files[i].path.as_str(), "README.md") {
            return files[i].content.clone();
        }
        i += 1;
    }
    String::from_str("README.mdが見つかりませんでした。")
}

/// The list of paths, one per line.
pub fn file_summary(files: &Vec<FileInfo>) -> (out: String)
    ensures
        out@ == file_summary_of(file_views(files@)),
{
    let mut out = String::new();
    let mut i: usize = 0;
    proof {
        assert(file_views(files@).take(0).len() == 0);
    }
    while i < files.len()
        invariant
            i <= files.len(),
            out@ == file_summary_of(file_views(files@).take(i as int)),
        decreases files.len() - i,
    {
        proof {
            let now = file_views(files@).take(i + 1);
            assert(now.drop_last() =~= file_views(files@).take(i as int));
            assert(now.last() == files[i as int]@);
            assert(now[0] == files[0]@);
        }
        if i > 0 {
            out.append("\n");
            out.append("- ");
            out.append(files[i].path.as_str());
        } else {
            out.append("- ");
            out.append(files[i].path.as_str());
            assert(out@ =~= "- "@ + files[0].path@);
        }
        i += 1;
    }
    proof {
        assert(file_views(files@).take(i as int) =~= file_views(files@));
    }
    out
}

/// A file's sample.
pub fn sample(content: &str) -> (out: String)
    ensures
        out@ == sample_of(content@),
{
    if content.len() > SAMPLE_BYTE_LIMIT {
        let mut out = take_chars(content, SAMPLE_CHARS);
        out.append("...\n(省略)...");
        out
    } else {
        String::from_str(content)
    }
}

/// The samples of the first files.
pub fn file_samples(files: &Vec<FileInfo>) -> (out: String)
    ensures
        out@ == file_samples_of(file_views(files@)),
{
    let count: usize = if files.len() <= SAMPLE_FILES {
        files.len()
    } else {
        SAMPLE_FILES
    };
    let mut out = String::new();
    let mut i: usize = 0;
    let ghost sampled = file_views(files@).take(count as int);
    proof {
        assert(sampled.take(0).len() == 0);
    }
    while i < count
        invariant
            i <= count <= files.len(),
            sampled == file_views(files@).take(count as int),
            out@ == samples_of(sampled.take(i as int)),
        decreases count - i,
    {
        proof {
            let now = sampled.take(i + 1);
            assert(now.drop_last() =~= sampled.take(i as int));
            assert(now.last() == files[i as int]@);
        }
        let piece = sample(files[i].content.as_str());
        out.append("\n--- ");
        out.append(files[i].path.as_str());
        out.append(" ---\n");
        out.append(piece.as_str());
        i += 1;
    }
    proof {
        assert(sampled.take(i as int) =~= sampled);
        if files.len() <= SAMPLE_FILES {
            assert(sampled =~= file_views(files@));
        }
    }
    out
}

fn fallback(
    owner: &str,
    repo: &str,
    debate_type: &str,
    file_count: &str,
    file_summary: &str,
    readme: &str,
    file_samples: &str,
) -> (out: String)
    ensures
        out@ == fallback_prompt(
            (PromptParts {
                owner: owner@,
                repo: repo@,
                debate_type: debate_type@,
                file_count: file_count@,
                file_summary: file_summary@,
                readme: readme@,
                file_samples: file_samples@,
            }),
        ),
{
    let mut out = String::from_str("あなたは高度なAIエンジニアとして、GitHubリポジトリ「");
    out.append(owner);
    out.append("/");
    out.append(repo);
    out.append("」の分析を行います。\nこのリポジトリについて「");
    out.append(debate_type);
    out.append("」という観点から詳細に議論してください。\n\n【リポジトリ情報】\n所有者: ");
    out.append(owner);
    out.append("\nリポジトリ名: ");
    out.append(repo);
    out.append("\nファイル数: ");
    out.append(file_count);
    out.append("\n\n【ファイル一覧】\n");
    out.append(file_summary);
    out.append("\n\n【README概要】\n");
    out.append(readme);
    out.append("\n\n【主要ファイルサンプル】\n");
    out.append(file_samples);
    out.append("\n\nあなたの任務:\n\n1. このリポジトリのコードを詳細に分析し、「");
    out.append(debate_type);
    out.append("」の観点から深く考察してください\n2. 技術的な長所・短所を特定し、具体的なコード例を引用してください\n3. あなたの専門知識に基づいた改善案や代替アプローチを提案してください\n4. 業界のベストプラクティスと比較した評価を行ってください\n5. このプロジェクトの将来性や発展方向について予測してください\n\nできるだけ具体的なコード例や技術的詳細に基づいて、深い洞察を提供してください。");
    out
}

fn template_variables(
    owner: &str,
    repo: &str,
    debate_type: &str,
    file_count: &str,
    file_summary: &str,
    readme: &str,
    file_samples: &str,
) -> (variables: Vec<(String, String)>)
    ensures
        pair_views(variables@) == variables_of(
            (PromptParts {
                owner: owner@,
                repo: repo@,
                debate_type: debate_type@,
                file_count: file_count@,
                file_summary: file_summary@,
                readme: readme@,
                file_samples: file_samples@,
            }),
        ),
{
    let mut variables: Vec<(String, String)> = Vec::new();
    variables.push((String::from_str("owner"), String::from_str(owner)));
    variables.push((String::from_str("repo"), String::from_str(repo)));
    variables.push((String::from_str("debate_type"), String::from_str(debate_type)));
    variables.push((String::from_str("file_count"), String::from_str(file_count)));
    variables.push((String::from_str("file_summary"), String::from_str(file_summary)));
    variables.push((String::from_str("readme"), String::from_str(readme)));
    variables.push((String::from_str("file_samples"), String::from_str(file_samples)));
    assert(pair_views(variables@) =~= variables_of(
        (PromptParts {
            owner: owner@,
            repo: repo@,
            debate_type: debate_type@,
            file_count: file_count@,
            file_summary: file_summary@,
            readme: readme@,
            file_samples: file_samples@,
        }),
    ));
    variables
}

/// Builds the two messages that open a conversation: the system prompt,
/// rendered from `template` where one is given and built in otherwise, and
/// the opening user message.
pub fn generate_repo_debate_prompt(
    repo_info: &RepoInfo,
    repo_files: &Vec<FileInfo>,
    debate_type: &str,
    template: Option<&str>,
) -> (prompts: (String, String))
    ensures
        prompts.0@ == system_prompt_of(
            parts_of(repo_info.owner@, repo_info.repo@, file_views(repo_files@), debate_type@),
            match template {
                Some(t) => Some(t@),
                None => None,
            },
        ),
        prompts.1@ == initial_message_of(repo_info.owner@, repo_info.repo@, debate_type@),
{
    let readme_content = find_readme(repo_files);
    let readme = take_chars(readme_content.as_str(), README_CHARS);
    let summary = file_summary(repo_files);
    let samples = file_samples(repo_files);
    let count = decimal_string(repo_files.len());
    let system_prompt = match template {
        Some(t) => {
            let variables = template_variables(
                repo_info.owner.as_str(),
                repo_info.repo.as_str(),
                debate_type,
                count.as_str(),
                summary.as_str(),
                readme.as_str(),
                samples.as_str(),
            );
            render_template_doubled(t, &variables)
        },
        None => fallback(
            repo_info.owner.as_str(),
            repo_info.repo.as_str(),
            debate_type,
            count.as_str(),
            summary.as_str(),
            readme.as_str(),
            samples.as_str(),
        ),
    };
    let mut initial_message = String::from_str("「");
    initial_message.append(repo_info.owner.as_str());
    initial_message.append("/");
    initial_message.append(repo_info.repo.as_str());
    initial_message.append("」リポジトリを「");
    initial_message.append(debate_type);
    initial_message.append(
        "」の観点から分析します。まず、このプロジェクトの概要と主要コンポーネントを特定しましょう。",
    );
    (system_prompt, initial_message)
}

} // verus!
