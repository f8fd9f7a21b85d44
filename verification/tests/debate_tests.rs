use azure_credit_burner::debate::{
    file_samples, file_summary, find_readme, generate_repo_debate_prompt, get_debate_types, sample,
};
use azure_credit_burner::llm::schemas::github_response::{FileInfo, RepoInfo};

fn file(path: &str, content: &str) -> FileInfo {
    FileInfo { path: path.to_string(), content: content.to_string() }
}

fn repo() -> RepoInfo {
    RepoInfo { owner: "acme".to_string(), repo: "tool".to_string(), max_files: 5 }
}

#[test]
fn analysis_dimensions() {
    let types = get_debate_types();
    assert_eq!(types.len(), 8);
    assert_eq!(types[0], "コードレビュー・分析");
    assert_eq!(types[1], "アーキテクチャの強み・弱み評価");
    assert_eq!(types[2], "実装の代替アプローチ提案");
    assert_eq!(types[3], "セキュリティ脆弱性の検出");
    assert_eq!(types[4], "パフォーマンス最適化の提案");
    assert_eq!(types[5], "APIデザインの批評");
    assert_eq!(types[6], "プロジェクトのロードマップ予測");
    assert_eq!(types[7], "ライセンスとオープンソースコミュニティへの影響分析");
}

#[test]
fn readme_is_the_first_matching_file() {
    let files = vec![file("a.rs", "x"), file("docs/README.md", "first"), file("README.md", "second")];
    assert_eq!(find_readme(&files), "first");
    assert_eq!(find_readme(&vec![file("a.rs", "x")]), "README.mdが見つかりませんでした。");
    assert_eq!(find_readme(&Vec::new()), "README.mdが見つかりませんでした。");
    assert_eq!(find_readme(&vec![file("README.md.old", "kept")]), "kept");
}

#[test]
fn summary_lists_the_paths() {
    assert_eq!(file_summary(&Vec::new()), "");
    assert_eq!(file_summary(&vec![file("a.rs", "x")]), "- a.rs");
    assert_eq!(file_summary(&vec![file("a.rs", "x"), file("b/c.rs", "y")]), "- a.rs\n- b/c.rs");
}

#[test]
fn long_samples_are_shortened() {
    assert_eq!(sample("short"), "short");
    let at_limit = "a".repeat(2000);
    assert_eq!(sample(&at_limit), at_limit);
    let over = "a".repeat(2001);
    assert_eq!(sample(&over), format!("{}...\n(省略)...", at_limit));
    let wide = "あ".repeat(1000);
    assert_eq!(sample(&wide), format!("{}...\n(省略)...", wide));
    let wide_long = "あ".repeat(2500);
    assert_eq!(sample(&wide_long), format!("{}...\n(省略)...", "あ".repeat(2000)));
    let wide_short = "あ".repeat(666);
    assert_eq!(sample(&wide_short), wide_short);
}

#[test]
fn only_the_first_five_files_are_sampled() {
    let files: Vec<FileInfo> =
        (0..7).map(|i| file(&format!("f{}.rs", i), &format!("c{}", i))).collect();
    assert_eq!(
        file_samples(&files),
        "\n--- f0.rs ---\nc0\n--- f1.rs ---\nc1\n--- f2.rs ---\nc2\n--- f3.rs ---\nc3\n--- f4.rs ---\nc4"
    );
    assert_eq!(file_samples(&files[..2].to_vec()), "\n--- f0.rs ---\nc0\n--- f1.rs ---\nc1");
    assert_eq!(file_samples(&Vec::new()), "");
}

#[test]
fn built_in_prompt() {
    let files = vec![file("src/main.rs", "fn main() {}"), file("README.md", "hello")];
    let (system, opening) = generate_repo_debate_prompt(&repo(), &files, "設計", None);
    let expected = format!(
        "あなたは高度なAIエンジニアとして、GitHubリポジトリ「{}/{}」の分析を行います。
このリポジトリについて「{}」という観点から詳細に議論してください。

【リポジトリ情報】
所有者: {}
リポジトリ名: {}
ファイル数: {}

【ファイル一覧】
{}

【README概要】
{}

【主要ファイルサンプル】
{}

あなたの任務:

1. このリポジトリのコードを詳細に分析し、「{}」の観点から深く考察してください
2. 技術的な長所・短所を特定し、具体的なコード例を引用してください
3. あなたの専門知識に基づいた改善案や代替アプローチを提案してください
4. 業界のベストプラクティスと比較した評価を行ってください
5. このプロジェクトの将来性や発展方向について予測してください

できるだけ具体的なコード例や技術的詳細に基づいて、深い洞察を提供してください。",
        "acme",
        "tool",
        "設計",
        "acme",
        "tool",
        2,
        "- src/main.rs\n- README.md",
        "hello",
        "\n--- src/main.rs ---\nfn main() {}\n--- README.md ---\nhello",
        "設計"
    );
    assert_eq!(system, expected);
    assert_eq!(
        opening,
        "「acme/tool」リポジトリを「設計」の観点から分析します。まず、このプロジェクトの概要と主要コンポーネントを特定しましょう。"
    );
}

#[test]
fn templated_prompt() {
    let files = vec![file("a.rs", "x"), file("README.md", &"r".repeat(1500))];
    let template =
        "{{owner}}/{{repo}} [{{debate_type}}] n={{file_count}}\n{{file_summary}}\n{{readme}}\n{{file_samples}}|{{owner}}|{unknown}|{{missing}}";
    let (system, _) = generate_repo_debate_prompt(&repo(), &files, "設計", Some(template));
    let expected = format!(
        "acme/tool [設計] n=2\n- a.rs\n- README.md\n{}\n\n--- a.rs ---\nx\n--- README.md ---\n{}|acme|{{unknown}}|{{{{missing}}}}",
        "r".repeat(1000),
        "r".repeat(1500)
    );
    assert_eq!(system, expected);
}

#[test]
fn missing_readme_in_the_prompt() {
    let (system, _) = generate_repo_debate_prompt(&repo(), &Vec::new(), "t", Some("{{readme}}/{{file_count}}/{{file_summary}}/{{file_samples}}"));
    assert_eq!(system, "README.mdが見つかりませんでした。/0//");
}
