//! What is persisted for a turn, and under which name.
//!
//! Every successful turn is stored once, under a file name that holds the
//! turn number and the time of writing, so that no turn overwrites another.

use crate::llm::schemas::github_response::RepoInfo;
use crate::llm::schemas::openai_response::{
    copy_history, history_view, ChatMessage, MessageView, ResponseData, ResponseView,
};
use crate::text::{decimal, decimal_string, replace_all, replaced};
use std::fmt::Write;
use vstd::prelude::*;

verus! {

/// What `chrono` prints for the UTC instant `secs` seconds and `nanos`
/// nanoseconds after the epoch under the format `fmt`; `None` where the
/// instant lies outside the dates `chrono` represents or the format is not
/// one it accepts.
pub uninterp spec fn utc_formatted(secs: int, nanos: int, fmt: Seq<char>) -> Option<Seq<char>>;

/// The RFC 3339 notation that `chrono` gives the UTC instant `secs` seconds
/// and `nanos` nanoseconds after the epoch; `None` where the instant lies
/// outside the dates `chrono` represents.
pub uninterp spec fn utc_rfc3339(secs: int, nanos: int) -> Option<Seq<char>>;

/// The view of an optional string.
pub open spec fn text_of(s: Option<String>) -> Option<Seq<char>> {
    match s {
        Some(t) => Some(t@),
        None => None,
    }
}

/// Calls `chrono::DateTime::<Utc>::from_timestamp` and prints the instant
/// with `DateTime::format`. Trusted: the result is a function of the three
/// arguments alone, named `utc_formatted`; it is `None` where
/// `from_timestamp` yields no instant or printing reports an error.
#[verifier::external_body]
fn format_utc(secs: i64, nanos: u32, fmt: &str) -> (r: Option<String>)
    ensures
        text_of(r) == utc_formatted(secs as int, nanos as int, fmt@),
{
    let instant = chrono::DateTime::<chrono::Utc>::from_timestamp(secs, nanos)?;
    let mut out = String::new();
    match write!(out, "{}", instant.format(fmt)) {
        Ok(()) => Some(out),
        Err(_) => None,
    }
}

/// Calls `chrono::DateTime::<Utc>::from_timestamp` and `to_rfc3339`.
/// Trusted: the result is a function of the two arguments alone, named
/// `utc_rfc3339`; it is `None` where `from_timestamp` yields no instant.
#[verifier::external_body]
fn rfc3339_utc(secs: i64, nanos: u32) -> (r: Option<String>)
    ensures
        text_of(r) == utc_rfc3339(secs as int, nanos as int),
{
    let instant = chrono::DateTime::<chrono::Utc>::from_timestamp(secs, nanos)?;
    Some(instant.to_rfc3339())
}

/// The format of the time stamp in a file name.
pub open spec fn file_stamp_format() -> Seq<char> {
    "%Y%m%d_%H%M%S"@
}

/// The directory a target's turns are stored in: `<base>/<owner>_<repo>`.
pub open spec fn response_dir_of(base_dir: Seq<char>, owner: Seq<char>, repo: Seq<char>) -> Seq<
    char,
> {
    base_dir + "/"@ + owner + "_"@ + repo
}

/// The file a turn is stored in:
/// `<dir>/<dimension>_<endpoint>_<turn>_turn<stamp>.json`, the blanks of the
/// dimension's name replaced by underscores.
pub open spec fn response_file_of(
    dir: Seq<char>,
    debate_type: Seq<char>,
    endpoint_name: Seq<char>,
    turn: nat,
    stamp: Seq<char>,
) -> Seq<char> {
    dir + "/"@ + replaced(debate_type, " "@, "_"@) + "_"@ + endpoint_name + "_"@ + decimal(turn)
        + "_turn"@ + stamp + ".json"@
}

/// The record stored for a turn.
pub open spec fn response_data_of(
    owner: Seq<char>,
    repo: Seq<char>,
    debate_type: Seq<char>,
    endpoint_name: Seq<char>,
    turn: nat,
    timestamp: Seq<char>,
    messages: Seq<MessageView>,
    tokens_used: nat,
) -> ResponseView {
    ResponseView {
        repo: owner + "/"@ + repo,
        debate_type,
        turn,
        timestamp,
        endpoint: endpoint_name,
        messages,
        tokens_used,
    }
}

/// The directory a target's turns are stored in.
pub fn response_dir(base_dir: &str, repo_info: &RepoInfo) -> (dir: String)
    ensures
        dir@ == response_dir_of(base_dir@, repo_info.owner@, repo_info.repo@),
{
    let mut dir = String::from_str(base_dir);
    dir.append("/");
    dir.append(repo_info.owner.as_str());
    dir.append("_");
    dir.append(repo_info.repo.as_str());
    dir
}

/// The file name and the record for a turn, given the two notations of the
/// time of writing.
pub fn persisted_turn(
    base_dir: &str,
    repo_info: &RepoInfo,
    debate_type: &str,
    endpoint_name: &str,
    turn: usize,
    messages: &Vec<ChatMessage>,
    tokens_used: usize,
    stamp: &str,
    timestamp: String,
) -> (r: (String, ResponseData))
    ensures
        r.0@ == response_file_of(
            response_dir_of(base_dir@, repo_info.owner@, repo_info.repo@),
            debate_type@,
            endpoint_name@,
            turn as nat,
            stamp@,
        ),
        r.1@ == response_data_of(
            repo_info.owner@,
            repo_info.repo@,
            debate_type@,
            endpoint_name@,
            turn as nat,
            timestamp@,
            history_view(messages@),
            tokens_used as nat,
        ),
{
    let mut name = response_dir(base_dir, repo_info);
    let dimension = replace_all(debate_type, " ", "_");
    let number = decimal_string(turn);
    name.append("/");
    name.append(dimension.as_str());
    name.append("_");
    name.append(endpoint_name);
    name.append("_");
    name.append(number.as_str());
    name.append("_turn");
    name.append(stamp);
    name.append(".json");
    let mut repo = repo_info.owner.clone();
    repo.append("/");
    repo.append(repo_info.repo.as_str());
    let data = ResponseData {
        repo,
        debate_type: String::from_str(debate_type),
        turn,
        timestamp,
        endpoint: String::from_str(endpoint_name),
        messages: copy_history(messages),
        tokens_used,
    };
    (name, data)
}

/// The file name and the record for a turn written at the UTC instant
/// `secs` seconds and `nanos` nanoseconds after the epoch; `None` where that
/// instant cannot be printed, in which case nothing is to be stored.
pub fn save_response(
    base_dir: &str,
    repo_info: &RepoInfo,
    debate_type: &str,
    endpoint_name: &str,
    turn: usize,
    messages: &Vec<ChatMessage>,
    tokens_used: usize,
    secs: i64,
    nanos: u32,
) -> (r: Option<(String, ResponseData)>)
    ensures
        match (
            utc_formatted(secs as int, nanos as int, file_stamp_format()),
            utc_rfc3339(secs as int, nanos as int),
        ) {
            (Some(stamp), Some(timestamp)) => r.is_some() && r.unwrap().0@ == response_file_of(
                response_dir_of(base_dir@, repo_info.owner@, repo_info.repo@),
                debate_type@,
                endpoint_name@,
                turn as nat,
                stamp,
            ) && r.unwrap().1@ == response_data_of(
                repo_info.owner@,
                repo_info.repo@,
                debate_type@,
                endpoint_name@,
                turn as nat,
                timestamp,
                history_view(messages@),
                tokens_used as nat,
            ),
            _ => r.is_none(),
        },
{
    let stamp = format_utc(secs, nanos, "%Y%m%d_%H%M%S");
    let timestamp = rfc3339_utc(secs, nanos);
    match (stamp, timestamp) {
        (Some(stamp), Some(timestamp)) => Some(
            persisted_turn(
                base_dir,
                repo_info,
                debate_type,
                endpoint_name,
                turn,
                messages,
                tokens_used,
                stamp.as_str(),
                timestamp,
            ),
        ),
        _ => None,
    }
}

} // verus!
