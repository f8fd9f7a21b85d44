use azure_credit_burner::llm::prompts::{
    get_default_templates, render_template, render_template_doubled, render_with,
};

fn vars(list: &[(&str, &str)]) -> Vec<(String, String)> {
    list.iter().map(|(k, v)| (k.to_string(), v.to_string())).collect()
}

#[test]
fn every_occurrence_is_substituted() {
    let out = render_template("{a} and {a}, then {b}; {c} stays", &vars(&[("a", "1"), ("b", "2")]));
    assert_eq!(out, "1 and 1, then 2; {c} stays");
    assert_eq!(render_template("plain", &vars(&[("a", "1")])), "plain");
    assert_eq!(render_template("{a}", &Vec::new()), "{a}");
    assert_eq!(render_template("", &vars(&[("a", "1")])), "");
}

#[test]
fn variables_are_substituted_in_order() {
    let out = render_template("{a}{b}", &vars(&[("a", "{b}"), ("b", "x")]));
    assert_eq!(out, "xx");
    let out = render_template("{a}{b}", &vars(&[("b", "x"), ("a", "{b}")]));
    assert_eq!(out, "{b}x");
    let out = render_template("{a}", &vars(&[("a", "1"), ("a", "2")]));
    assert_eq!(out, "1");
}

#[test]
fn doubled_braces() {
    let v = vars(&[("owner", "acme")]);
    assert_eq!(render_template_doubled("{{owner}} {owner}", &v), "acme {owner}");
    assert_eq!(render_template("{{owner}} {owner}", &v), "{acme} acme");
}

#[test]
fn other_delimiters() {
    let v = vars(&[("x", "1")]);
    assert_eq!(render_with("<x> [x] x", &v, "<", ">"), "1 [x] x");
    assert_eq!(render_with("<x> [x] x", &v, "", ""), "<1> [1] 1");
    assert_eq!(render_with("<x> $x", &v, "$", ""), "<x> 1");
}

#[test]
fn built_in_templates() {
    let templates = get_default_templates();
    assert_eq!(templates.len(), 1);
    assert_eq!(templates[0].0, "repo_analysis");
    let text = &templates[0].1;
    assert!(text.starts_with("あなたは高度なAIエンジニアとして、GitHubリポジトリ「{{owner}}/{{repo}}」の分析を行います。\nこのリポジトリについて「{{debate_type}}」"));
    assert!(text.ends_with("深い洞察を提供してください。"));
    assert_eq!(text.matches("{{debate_type}}").count(), 2);
    assert_eq!(text.matches("{{owner}}").count(), 2);
    assert_eq!(text.matches("{{file_samples}}").count(), 1);
    assert_eq!(text.chars().count(), 494);
}
