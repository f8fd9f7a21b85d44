//! Prompt templates and placeholder substitution.
//!
//! A template is plain text in which a placeholder is a variable's name
//! between an opening and a closing delimiter. Rendering substitutes the
//! variables one after the other, in the order given, each in every place
//! where its placeholder occurs in the text as it then stands.

use crate::text::{replace_all, replaced};
use vstd::prelude::*;

verus! {

/// The variables of a template: (name, value) pairs, in the order of
/// substitution.
pub type TemplateVariables = Vec<(String, String)>;

/// The views of a list of (name, value) pairs, entry by entry.
pub open spec fn pair_views(v: Seq<(String, String)>) -> Seq<(Seq<char>, Seq<char>)> {
    Seq::new(v.len(), |i: int| (v[i].0@, v[i].1@))
}

/// `template` after substituting `variables` in order, a placeholder being
/// the variable's name between `open` and `close`.
pub open spec fn rendered_with(
    template: Seq<char>,
    variables: Seq<(Seq<char>, Seq<char>)>,
    open: Seq<char>,
    close: Seq<char>,
) -> Seq<char>
    decreases variables.len(),
{
    if variables.len() == 0 {
        template
    } else {
        replaced(
            rendered_with(template, variables.drop_last(), open, close),
            open + variables.last().0 + close,
            variables.last().1,
        )
    }
}

/// `template` after substituting `variables` for placeholders of the form
/// `{name}`.
pub open spec fn rendered(template: Seq<char>, variables: Seq<(Seq<char>, Seq<char>)>) -> Seq<
    char,
> {
    rendered_with(template, variables, "{"@, "}"@)
}

/// `template` after substituting `variables` for placeholders of the form
/// `{{name}}`, the form the built-in templates use.
pub open spec fn rendered_doubled(
    template: Seq<char>,
    variables: Seq<(Seq<char>, Seq<char>)>,
) -> Seq<char> {
    rendered_with(template, variables, "{{"@, "}}"@)
}

/// Substitutes `variables` in `template`, with the given delimiters.
pub fn render_with(template: &str, variables: &Vec<(String, String)>, open: &str, close: &str) -> (out:
    String)
    ensures
        out@ == rendered_with(template@, pair_views(variables@), open@, close@),
{
    let mut out = String::from_str(template);
    let mut i: usize = 0;
    proof {
        assert(pair_views(variables@).take(0).len() == 0);
    }
    while i < variables.len()
        invariant
            i <= variables.len(),
            out@ == rendered_with(template@, pair_views(variables@).take(i as int), open@, close@),
        decreases variables.len() - i,
    {
        let mut placeholder = String::from_str(open);
        placeholder.append(variables[i].0.as_str());
        placeholder.append(close);
        proof {
            let now = pair_views(variables@).take(i + 1);
            assert(now.drop_last() =~= pair_views(variables@).take(i as int));
            assert(now.last() == (variables[i as int].0@, variables[i as int].1@));
        }
        out = replace_all(out.as_str(), placeholder.as_str(), variables[i].1.as_str());
        i += 1;
    }
    proof {
        assert(pair_views(variables@).take(i as int) =~= pair_views(variables@));
    }
    out
}

/// Substitutes `variables` in `template` for placeholders of the form
/// `{name}`.
pub fn render_template(template: &str, variables: &TemplateVariables) -> (out: String)
    ensures
        out@ == rendered(template@, pair_views(variables@)),
{
    render_with(template, variables, "{", "}")
}

/// Substitutes `variables` in `template` for placeholders of the form
/// `{{name}}`.
pub fn render_template_doubled(template: &str, variables: &TemplateVariables) -> (out: String)
    ensures
        out@ == rendered_doubled(template@, pair_views(variables@)),
{
    render_with(template, variables, "{{", "}}")
}

/// Name of the built-in template for repository analysis.
pub open spec fn repo_analysis_name() -> Seq<char> {
    "repo_analysis"@
}

/// Text of the built-in template for repository analysis.
pub open spec fn repo_analysis_template() -> Seq<char> {
    "あなたは高度なAIエンジニアとして、GitHubリポジトリ「{{owner}}/{{repo}}」の分析を行います。\nこのリポジトリについて「{{debate_type}}」という観点から詳細に議論してください。\n\n【リポジトリ情報】\n所有者: {{owner}}\nリポジトリ名: {{repo}}\nファイル数: {{file_count}}\n\n【ファイル一覧】\n{{file_summary}}\n\n【README概要】\n{{readme}}\n\n【主要ファイルサンプル】\n{{file_samples}}\n\nあなたの任務:\n\n1. このリポジトリのコードを詳細に分析し、「{{debate_type}}」の観点から深く考察してください\n2. 技術的な長所・短所を特定し、具体的なコード例を引用してください\n3. あなたの専門知識に基づいた改善案や代替アプローチを提案してください\n4. 業界のベストプラクティスと比較した評価を行ってください\n5. このプロジェクトの将来性や発展方向について予測してください\n\nできるだけ具体的なコード例や技術的詳細に基づいて、深い洞察を提供してください。"@
}

/// The built-in templates, as (name, text) pairs: one template, for
/// repository analysis, with placeholders in doubled braces.
pub fn get_default_templates() -> (templates: Vec<(String, String)>)
    ensures
        templates@.len() == 1,
        templates@[0].0@ == repo_analysis_name(),
        templates@[0].1@ == repo_analysis_template(),
{
    let mut templates: Vec<(String, String)> = Vec::new();
    templates.push(
        (
            String::from_str("repo_analysis"),
            String::from_str(
                "あなたは高度なAIエンジニアとして、GitHubリポジトリ「{{owner}}/{{repo}}」の分析を行います。\nこのリポジトリについて「{{debate_type}}」という観点から詳細に議論してください。\n\n【リポジトリ情報】\n所有者: {{owner}}\nリポジトリ名: {{repo}}\nファイル数: {{file_count}}\n\n【ファイル一覧】\n{{file_summary}}\n\n【README概要】\n{{readme}}\n\n【主要ファイルサンプル】\n{{file_samples}}\n\nあなたの任務:\n\n1. このリポジトリのコードを詳細に分析し、「{{debate_type}}」の観点から深く考察してください\n2. 技術的な長所・短所を特定し、具体的なコード例を引用してください\n3. あなたの専門知識に基づいた改善案や代替アプローチを提案してください\n4. 業界のベストプラクティスと比較した評価を行ってください\n5. このプロジェクトの将来性や発展方向について予測してください\n\nできるだけ具体的なコード例や技術的詳細に基づいて、深い洞察を提供してください。",
            ),
        ),
    );
    templates
}

/// The file that holds a system prompt: `llm/system_prompts/<name>.md`.
pub open spec fn system_prompt_file_of(name: Seq<char>) -> Seq<char> {
    "llm/system_prompts/"@ + name + ".md"@
}

/// The file that holds a template: `prompts/<name>.txt`.
pub open spec fn template_file_of(name: Seq<char>) -> Seq<char> {
    "prompts/"@ + name + ".txt"@
}

/// The file that holds a system prompt.
pub fn system_prompt_file(name: &str) -> (path: String)
    ensures
        path@ == system_prompt_file_of(name@),
{
    let mut path = String::from_str("llm/system_prompts/");
    path.append(name);
    path.append(".md");
    path
}

/// The file that holds a template.
pub fn template_file(name: &str) -> (path: String)
    ensures
        path@ == template_file_of(name@),
{
    let mut path = String::from_str("prompts/");
    path.append(name);
    path.append(".txt");
    path
}

} // verus!
