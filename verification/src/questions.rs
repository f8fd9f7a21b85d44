//! Question selection: which category a turn discusses and which of the
//! category's canned questions is asked.

use crate::llm::categories::{get_question, question_of, CategoryQuestions};
use crate::llm::schemas::github_response::RepoInfo;
use crate::text::same_text;
use vstd::prelude::*;

verus! {

/// Number of categories in the rotation.
pub const CATEGORY_COUNT: usize = 7;

/// Display name of the category at a rotation slot.
pub open spec fn category_name(slot: int) -> Seq<char> {
    if slot == 0 {
        "アーキテクチャ"@
    } else if slot == 1 {
        "パフォーマンス"@
    } else if slot == 2 {
        "セキュリティ"@
    } else if slot == 3 {
        "テスト品質"@
    } else if slot == 4 {
        "ドメイン分析"@
    } else if slot == 5 {
        "分散システム"@
    } else {
        "コード保守性"@
    }
}

/// Data key of the category at a rotation slot.
pub open spec fn category_key(slot: int) -> Seq<char> {
    if slot == 0 {
        "architecture"@
    } else if slot == 1 {
        "performance"@
    } else if slot == 2 {
        "security"@
    } else if slot == 3 {
        "testing"@
    } else if slot == 4 {
        "domain"@
    } else if slot == 5 {
        "distributed"@
    } else {
        "maintainability"@
    }
}

/// Rotation slot of a display name; an unknown name falls back to slot 0.
pub open spec fn category_slot(name: Seq<char>) -> int {
    if name == category_name(1) {
        1
    } else if name == category_name(2) {
        2
    } else if name == category_name(3) {
        3
    } else if name == category_name(4) {
        4
    } else if name == category_name(5) {
        5
    } else if name == category_name(6) {
        6
    } else {
        0
    }
}

/// The question asked when a category has no usable question data.
pub open spec fn fallback_question() -> Seq<char> {
    "このリポジトリについて、さらに詳細な分析を行ってください。コードの品質や設計について特に重要な点は何でしょうか？"@
}

/// The opening question of a conversation about `owner/repo`.
pub open spec fn opening_question(owner: Seq<char>, repo: Seq<char>) -> Seq<char> {
    "「"@ + owner + "/"@ + repo
        + "」リポジトリを分析します。まず、このプロジェクトの概要と主要コンポーネントを特定しましょう。"@
}

/// Rotation slot discussed at a turn (turns from 2 on rotate through the
/// categories, one per turn).
pub open spec fn turn_slot(turn: int) -> int {
    (turn - 2) % (CATEGORY_COUNT as int)
}

/// Index handed to the category at a turn: it grows by one per full rotation.
pub open spec fn turn_question_index(turn: int) -> int {
    (turn - 2) / (CATEGORY_COUNT as int)
}

/// The loaded question data, one slot per category of the rotation; a slot
/// is `None` where no data could be obtained, and slots beyond the end of
/// the bank count as `None`.
pub struct DeepQuestions {
    pub bank: Vec<Option<CategoryQuestions>>,
}

impl DeepQuestions {
    /// The question that the category named `category` yields for `index`.
    pub open spec fn question_text(&self, category: Seq<char>, index: nat) -> Seq<char> {
        let slot = category_slot(category);
        if slot < self.bank@.len() && self.bank@[slot] is Some {
            match question_of(category_key(slot), self.bank@[slot]->0, index) {
                Ok(q) => q,
                Err(_) => fallback_question(),
            }
        } else {
            fallback_question()
        }
    }

    /// The question asked at `turn` of a conversation about `owner/repo`.
    pub open spec fn next_question(
        &self,
        owner: Seq<char>,
        repo: Seq<char>,
        turn: nat,
    ) -> Seq<char> {
        if turn == 1 {
            opening_question(owner, repo)
        } else {
            self.question_text(
                category_name(turn_slot(turn as int)),
                turn_question_index(turn as int) as nat,
            )
        }
    }

    /// Wraps loaded question data.
    pub fn new(bank: Vec<Option<CategoryQuestions>>) -> (r: Self)
        ensures
            r.bank == bank,
    {
        DeepQuestions { bank }
    }

    /// Display name of the category at position `turn` of the rotation.
    pub fn get_category(&self, turn: usize) -> (name: String)
        ensures
            name@ == category_name((turn % CATEGORY_COUNT) as int),
    {
        let slot: usize = turn % CATEGORY_COUNT;
        if slot == 0 {
            String::from_str("アーキテクチャ")
        } else if slot == 1 {
            String::from_str("パフォーマンス")
        } else if slot == 2 {
            String::from_str("セキュリティ")
        } else if slot == 3 {
            String::from_str("テスト品質")
        } else if slot == 4 {
            String::from_str("ドメイン分析")
        } else if slot == 5 {
            String::from_str("分散システム")
        } else {
            String::from_str("コード保守性")
        }
    }

    /// The question of the category named `category` for `index`, or the
    /// fallback question where the category has no data.
    pub fn get_question(&self, category: &str, index: usize) -> (q: String)
        ensures
            q@ == self.question_text(category@, index as nat),
    {
        let slot: usize = slot_of_name(category);
        let key: &'static str = key_of_slot(slot);
        if slot < self.bank.len() {
            match &self.bank[slot] {
                Some(data) => {
                    match get_question(key, data, index) {
                        Ok(q) => {
                            return q;
                        },
                        Err(_) => {},
                    }
                },
                None => {},
            }
        }
        String::from_str(
            "このリポジトリについて、さらに詳細な分析を行ってください。コードの品質や設計について特に重要な点は何でしょうか？",
        )
    }
}

/// Rotation slot of a display name.
pub fn slot_of_name(name: &str) -> (slot: usize)
    ensures
        slot < CATEGORY_COUNT,
        slot as int == category_slot(name@),
{
    if same_text(name, "パフォーマンス") {
        1
    } else if same_text(name, "セキュリティ") {
        2
    } else if same_text(name, "テスト品質") {
        3
    } else if same_text(name, "ドメイン分析") {
        4
    } else if same_text(name, "分散システム") {
        5
    } else if same_text(name, "コード保守性") {
        6
    } else {
        0
    }
}

/// Data key of a rotation slot.
pub fn key_of_slot(slot: usize) -> (key: &'static str)
    ensures
        key@ == category_key(slot as int),
{
    if slot == 0 {
        "architecture"
    } else if slot == 1 {
        "performance"
    } else if slot == 2 {
        "security"
    } else if slot == 3 {
        "testing"
    } else if slot == 4 {
        "domain"
    } else if slot == 5 {
        "distributed"
    } else {
        "maintainability"
    }
}

/// The question to ask at `turn`: the opening question at turn 1, afterwards
/// the rotating category's question.
pub fn get_next_question(repo_info: &RepoInfo, deep_questions: &DeepQuestions, turn: usize) -> (q:
    String)
    requires
        turn >= 1,
    ensures
        q@ == deep_questions.next_question(repo_info.owner@, repo_info.repo@, turn as nat),
{
    if turn == 1 {
        let mut q = String::from_str("「");
        q.append(repo_info.owner.as_str());
        q.append("/");
        q.append(repo_info.repo.as_str());
        q.append(
            "」リポジトリを分析します。まず、このプロジェクトの概要と主要コンポーネントを特定しましょう。",
        );
        return q;
    }
    let category = deep_questions.get_category(turn - 2);
    let question_index: usize = (turn - 2) / CATEGORY_COUNT;
    deep_questions.get_question(category.as_str(), question_index)
}

/// The seven display names are pairwise distinct, so a name produced by the
/// rotation leads back to the slot it came from.
pub proof fn lemma_slot_of_category_name(slot: int)
    requires
        0 <= slot < CATEGORY_COUNT,
    ensures
        category_slot(category_name(slot)) == slot,
{
    reveal_strlit("アーキテクチャ");
    reveal_strlit("パフォーマンス");
    reveal_strlit("セキュリティ");
    reveal_strlit("テスト品質");
    reveal_strlit("ドメイン分析");
    reveal_strlit("分散システム");
    reveal_strlit("コード保守性");
    assert("アーキテクチャ"@[0] == 'ア');
    assert("パフォーマンス"@[0] == 'パ');
    assert("セキュリティ"@[0] == 'セ');
    assert("テスト品質"@[0] == 'テ');
    assert("ドメイン分析"@[0] == 'ド');
    assert("分散システム"@[0] == '分');
    assert("コード保守性"@[0] == 'コ');
}

/// Category rotation: turns that lie a whole number of rotations apart
/// discuss the same category.
pub proof fn lemma_rotation_period(turn: int, rounds: int)
    requires
        turn >= 2,
        rounds >= 0,
    ensures
        turn_slot(turn + rounds * CATEGORY_COUNT) == turn_slot(turn),
        turn_question_index(turn + rounds * CATEGORY_COUNT) == turn_question_index(turn) + rounds,
{
    let a = turn - 2;
    assert((a + rounds * 7) % 7 == a % 7 && (a + rounds * 7) / 7 == a / 7 + rounds)
        by (nonlinear_arith)
        requires
            a >= 0,
            rounds >= 0,
    ;
    assert(turn + rounds * 7 - 2 == a + rounds * 7);
}

/// Question recurrence: in a category with `n` questions the same question
/// comes back after every `n` full rotations.
pub proof fn lemma_question_recurs(
    questions: DeepQuestions,
    owner: Seq<char>,
    repo: Seq<char>,
    turn: nat,
    n: nat,
    times: nat,
)
    requires
        turn >= 2,
        n >= 1,
        ({
            let slot = turn_slot(turn as int);
            slot < questions.bank@.len() && questions.bank@[slot] is Some
                && questions.bank@[slot]->0.questions@.len() == n
        }),
    ensures
        questions.next_question(owner, repo, turn + times * n * CATEGORY_COUNT as nat)
            == questions.next_question(owner, repo, turn),
{
    let t = turn as int;
    let rounds = (times * n) as int;
    lemma_rotation_period(t, rounds);
    let slot = turn_slot(t);
    assert(0 <= slot < 7);
    lemma_slot_of_category_name(slot);
    let i = turn_question_index(t);
    let m = n as int;
    let k = times as int;
    assert(i >= 0);
    vstd::arithmetic::div_mod::lemma_mod_multiples_vanish(k, i, m);
    assert(i + k * m == m * k + i) by (nonlinear_arith);
    assert(rounds == k * m) by (nonlinear_arith)
        requires
            rounds == (times * n) as int,
            k == times as int,
            m == n as int,
    ;
    assert(times * n * CATEGORY_COUNT as nat == rounds * 7) by (nonlinear_arith)
        requires
            rounds == (times * n) as int,
            CATEGORY_COUNT == 7,
    ;
}

} // verus!
