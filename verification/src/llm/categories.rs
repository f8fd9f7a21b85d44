//! Question categories and the canned follow-up questions of each.

use crate::text::same_text;
use vstd::prelude::*;

verus! {

/// One canned question.
#[derive(Debug)]
pub struct Question {
    pub id: String,
    pub text: String,
}

/// The question data of one category.
#[derive(Debug)]
pub struct CategoryQuestions {
    pub category: String,
    pub description: String,
    pub questions: Vec<Question>,
}

/// The category keys for which question data is shipped.
pub fn get_categories() -> (list: Vec<&'static str>)
    ensures
        list@.len() == 3,
        list@[0]@ == "architecture"@,
        list@[1]@ == "performance"@,
        list@[2]@ == "security"@,
{
    let mut list: Vec<&'static str> = Vec::new();
    list.push("architecture");
    list.push("performance");
    list.push("security");
    list
}

/// Display name of a category key; unknown keys map to a catch-all name.
pub open spec fn category_japanese(category: Seq<char>) -> Seq<char> {
    if category == "architecture"@ {
        "アーキテクチャ"@
    } else if category == "performance"@ {
        "パフォーマンス"@
    } else if category == "security"@ {
        "セキュリティ"@
    } else if category == "testing"@ {
        "テスト品質"@
    } else if category == "domain"@ {
        "ドメイン分析"@
    } else if category == "distributed"@ {
        "分散システム"@
    } else if category == "maintainability"@ {
        "コード保守性"@
    } else {
        "その他"@
    }
}

/// Display name of a category key.
pub fn get_category_japanese(category: &str) -> (name: &'static str)
    ensures
        name@ == category_japanese(category@),
{
    if same_text(category, "architecture") {
        "アーキテクチャ"
    } else if same_text(category, "performance") {
        "パフォーマンス"
    } else if same_text(category, "security") {
        "セキュリティ"
    } else if same_text(category, "testing") {
        "テスト品質"
    } else if same_text(category, "domain") {
        "ドメイン分析"
    } else if same_text(category, "distributed") {
        "分散システム"
    } else if same_text(category, "maintainability") {
        "コード保守性"
    } else {
        "その他"
    }
}

/// The message reported for a category without questions.
pub open spec fn no_questions_message(category: Seq<char>) -> Seq<char> {
    "カテゴリ「"@ + category + "」に質問がありません"@
}

/// The question a category yields for an index: the questions cycle, and a
/// category without questions yields an error message naming it.
pub open spec fn question_of(category: Seq<char>, data: CategoryQuestions, index: nat) -> Result<
    Seq<char>,
    Seq<char>,
> {
    if data.questions@.len() == 0 {
        Err(no_questions_message(category))
    } else {
        Ok(data.questions@[(index % data.questions@.len()) as int].text@)
    }
}

/// Picks the question at `index` (cyclically) from loaded category data.
pub fn get_question(category: &str, data: &CategoryQuestions, index: usize) -> (r: Result<
    String,
    String,
>)
    ensures
        match (r, question_of(category@, *data, index as nat)) {
            (Ok(q), Ok(expected)) => q@ == expected,
            (Err(e), Err(expected)) => e@ == expected,
            _ => false,
        },
{
    if data.questions.len() == 0 {
        let mut message = String::from_str("カテゴリ「");
        message.append(category);
        message.append("」に質問がありません");
        return Err(message);
    }
    let question_index: usize = index % data.questions.len();
    Ok(data.questions[question_index].text.clone())
}

/// The file that holds the question data of a category:
/// `llm/categories/<key>.json`.
pub open spec fn category_file_of(category: Seq<char>) -> Seq<char> {
    "llm/categories/"@ + category + ".json"@
}

/// The file that holds the question data of a category.
pub fn category_file(category: &str) -> (path: String)
    ensures
        path@ == category_file_of(category@),
{
    let mut path = String::from_str("llm/categories/");
    path.append(category);
    path.append(".json");
    path
}

} // verus!
