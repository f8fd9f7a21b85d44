//! The retry and backoff policy for one remote call.
//!
//! A call is attempted up to `MAX_RETRIES + 1` times. After a failed attempt
//! the policy either names the number of seconds to wait before the next
//! attempt or gives the call up, carrying the last status and message.

use crate::llm::schemas::openai_response::{Endpoint, OpenAIResponse};
use crate::text::{
    chars_of, find_chars, first_index_of, parse_u64_chars, parsed_u64, slice_chars,
};
use vstd::prelude::*;

verus! {

/// Number of retries after which a call is given up.
pub const MAX_RETRIES: usize = 5;

/// The status that signals rate limiting.
pub const RATE_LIMIT_STATUS: u16 = 429;

/// Longest wait, in seconds, after a rate-limit signal without a hint.
pub const RATE_LIMIT_CAP: u64 = 120;

/// Longest wait, in seconds, after any other failure.
pub const ERROR_CAP: u64 = 30;

/// Base delay, in seconds, of the exponential backoff.
pub const BASE_DELAY: u64 = 1;

/// The model completions are requested from.
pub const COMPLETION_MODEL: &'static str = "gpt-4.5-preview";

/// The token budget of one completion.
pub const COMPLETION_MAX_TOKENS: usize = 4000;

/// Two to the power `n`.
pub open spec fn pow2(n: nat) -> nat
    decreases n,
{
    if n == 0 {
        1
    } else {
        2 * pow2((n - 1) as nat)
    }
}

/// Exponential backoff: `2^retry_count * base`, at most `cap`.
pub open spec fn backoff(retry_count: nat, base: nat, cap: nat) -> nat {
    if pow2(retry_count) * base <= cap {
        pow2(retry_count) * base
    } else {
        cap
    }
}

/// The wait that the server asks for in an error message: the number
/// between the first `retry after ` and the first ` seconds` that follows it.
pub open spec fn retry_hint(message: Seq<char>) -> Option<u64> {
    match first_index_of(message, "retry after "@) {
        Some(i) => {
            let after = message.skip(i + "retry after "@.len());
            match first_index_of(after, " seconds"@) {
                Some(j) => parsed_u64(after.take(j)),
                None => None,
            }
        },
        None => None,
    }
}

/// Seconds to wait after a failed attempt: after a rate-limit signal the
/// server's hint or, without one, exponential backoff up to
/// `RATE_LIMIT_CAP`; after any other failure `2^retry_count` up to
/// `ERROR_CAP`.
pub open spec fn wait_seconds(status: u16, message: Seq<char>, retry_count: nat) -> nat {
    if status == RATE_LIMIT_STATUS {
        match retry_hint(message) {
            Some(n) => n as nat,
            None => backoff(retry_count, BASE_DELAY as nat, RATE_LIMIT_CAP as nat),
        }
    } else {
        backoff(retry_count, 1, ERROR_CAP as nat)
    }
}

/// The failure a call ends with when its retries are used up.
#[derive(Debug)]
pub struct TerminalFailure {
    pub status: u16,
    pub message: String,
}

/// What to do after a failed attempt.
#[derive(Debug)]
pub enum RetryDecision {
    /// Wait this many seconds, then attempt again.
    Retry { wait_seconds: u64 },
    /// Give the call up.
    GiveUp(TerminalFailure),
}

/// The powers of two grow.
pub proof fn lemma_pow2_monotonic(a: nat, b: nat)
    requires
        a <= b,
    ensures
        1 <= pow2(a) <= pow2(b),
    decreases b,
{
    if a < b {
        lemma_pow2_monotonic(a, (b - 1) as nat);
    } else if a > 0 {
        lemma_pow2_monotonic((a - 1) as nat, (a - 1) as nat);
    }
}

/// Exponential backoff without overflow.
pub fn compute_backoff(retry_count: usize, base: u64, cap: u64) -> (wait: u64)
    ensures
        wait == backoff(retry_count as nat, base as nat, cap as nat),
{
    if base == 0 {
        assert(pow2(retry_count as nat) * 0 == 0);
        return 0;
    }
    if base > cap {
        proof {
            lemma_pow2_monotonic(0, retry_count as nat);
            assert(pow2(retry_count as nat) * base >= base) by (nonlinear_arith)
                requires
                    pow2(retry_count as nat) >= 1,
            ;
        }
        return cap;
    }
    let mut delay: u64 = base;
    let mut k: usize = 0;
    assert(pow2(0) == 1);
    assert(pow2(0) * base == base) by (nonlinear_arith)
        requires
            pow2(0) == 1,
    ;
    while k < retry_count
        invariant
            k <= retry_count,
            base > 0,
            delay == pow2(k as nat) * base,
            delay <= cap,
        decreases retry_count - k,
    {
        if delay > cap / 2 {
            proof {
                lemma_pow2_monotonic((k + 1) as nat, retry_count as nat);
                assert(pow2((k + 1) as nat) * base == 2 * delay) by (nonlinear_arith)
                    requires
                        pow2((k + 1) as nat) == 2 * pow2(k as nat),
                        delay == pow2(k as nat) * base,
                ;
                assert(pow2(retry_count as nat) * base >= pow2((k + 1) as nat) * base)
                    by (nonlinear_arith)
                    requires
                        pow2(retry_count as nat) >= pow2((k + 1) as nat),
                ;
            }
            return cap;
        }
        proof {
            assert(pow2((k + 1) as nat) * base == 2 * delay) by (nonlinear_arith)
                requires
                    pow2((k + 1) as nat) == 2 * pow2(k as nat),
                    delay == pow2(k as nat) * base,
            ;
        }
        delay = 2 * delay;
        k += 1;
    }
    delay
}

/// The wait after a failed attempt that was not the last.
pub fn wait_time(status: u16, error_text: &str, retry_count: usize) -> (wait: u64)
    ensures
        wait == wait_seconds(status, error_text@, retry_count as nat),
{
    if status == RATE_LIMIT_STATUS {
        match extract_retry_delay(error_text) {
            Some(n) => n,
            None => compute_backoff(retry_count, BASE_DELAY, RATE_LIMIT_CAP),
        }
    } else {
        compute_backoff(retry_count, 1, ERROR_CAP)
    }
}

/// Reads the server's wait hint from an error message.
pub fn extract_retry_delay(error_message: &str) -> (hint: Option<u64>)
    ensures
        hint == retry_hint(error_message@),
{
    let message = chars_of(error_message);
    let lead = chars_of("retry after ");
    let tail = chars_of(" seconds");
    match find_chars(&message, &lead) {
        Some(start) => {
            let after = slice_chars(&message, start + lead.len(), message.len());
            proof {
                assert(after@ =~= message@.skip(start + lead.len()));
            }
            match find_chars(&after, &tail) {
                Some(end) => {
                    let number = slice_chars(&after, 0, end);
                    proof {
                        assert(number@ =~= after@.take(end as int));
                    }
                    parse_u64_chars(&number)
                },
                None => None,
            }
        },
        None => None,
    }
}

/// The decision after the failed attempt number `retry_count + 1`: retry
/// after `wait_seconds` while fewer than `MAX_RETRIES` retries were made,
/// give up afterwards.
pub open spec fn decides(
    decision: RetryDecision,
    retry_count: nat,
    status: u16,
    message: Seq<char>,
) -> bool {
    match decision {
        RetryDecision::Retry { wait_seconds: w } => retry_count < MAX_RETRIES && w == wait_seconds(
            status,
            message,
            retry_count,
        ),
        RetryDecision::GiveUp(failure) => retry_count >= MAX_RETRIES && failure.status == status
            && failure.message@ == message,
    }
}

/// The retry counter of one remote call. It starts at zero with every call
/// and is not kept across turns.
pub struct RetryState {
    pub retry_count: usize,
}

impl RetryState {
    /// The counter of a call that has not failed yet.
    pub fn new() -> (s: Self)
        ensures
            s.retry_count == 0,
    {
        RetryState { retry_count: 0 }
    }

    /// Takes note of a failed attempt and decides what follows: while
    /// retries are left, a wait, with the counter raised by one; otherwise
    /// the terminal failure, with the counter unchanged.
    pub fn record_failure(&mut self, status: u16, error_text: String) -> (decision: RetryDecision)
        ensures
            decides(decision, old(self).retry_count as nat, status, error_text@),
            decision is Retry ==> final(self).retry_count == old(self).retry_count + 1,
            decision is GiveUp ==> final(self).retry_count == old(self).retry_count,
    {
        if self.retry_count >= MAX_RETRIES {
            return RetryDecision::GiveUp(TerminalFailure { status, message: error_text });
        }
        let wait = wait_time(status, error_text.as_str(), self.retry_count);
        self.retry_count = self.retry_count + 1;
        RetryDecision::Retry { wait_seconds: wait }
    }
}

/// The reply text and token count of a completion response: those of its
/// first choice, or `None` where it has no choice.
pub fn completion_of(response: &OpenAIResponse) -> (r: Option<(String, usize)>)
    ensures
        response.choices@.len() == 0 ==> r.is_none(),
        response.choices@.len() > 0 ==> r.is_some() && r.unwrap().0@
            == response.choices@[0].message.content@ && r.unwrap().1
            == response.usage.total_tokens,
{
    if response.choices.len() == 0 {
        None
    } else {
        Some((response.choices[0].message.content.clone(), response.usage.total_tokens))
    }
}

/// A client for one completion endpoint.
pub struct AzureOpenAIClient {
    pub endpoint: Endpoint,
    pub api_version: String,
}

impl AzureOpenAIClient {
    /// The address completions for `model` are requested from.
    pub open spec fn request_url_of(&self, model: Seq<char>) -> Seq<char> {
        self.endpoint.endpoint@ + "/openai/deployments/"@ + model
            + "/chat/completions?api-version="@ + self.api_version@
    }

    /// A client for `endpoint`, speaking the interface version this library
    /// was written for.
    pub fn new(endpoint: Endpoint) -> (c: Self)
        ensures
            c.endpoint == endpoint,
            c.api_version@ == "2024-12-01-preview"@,
    {
        AzureOpenAIClient { endpoint, api_version: String::from_str("2024-12-01-preview") }
    }

    /// Reads the server's wait hint from an error message.
    pub fn extract_retry_delay(&self, error_message: &str) -> (hint: Option<u64>)
        ensures
            hint == retry_hint(error_message@),
    {
        extract_retry_delay(error_message)
    }

    /// The address completions for `model` are requested from.
    pub fn request_url(&self, model: &str) -> (url: String)
        ensures
            url@ == self.request_url_of(model@),
    {
        let mut url = self.endpoint.endpoint.clone();
        url.append("/openai/deployments/");
        url.append(model);
        url.append("/chat/completions?api-version=");
        url.append(self.api_version.as_str());
        url
    }
}

/// Backoff bound: without a server hint the waits after rate-limit signals
/// are 1, 2, 4, 8 and 16 seconds for the five retries, and no wait computed
/// by backoff exceeds its cap.
pub proof fn lemma_backoff_schedule(message: Seq<char>, retry_count: nat)
    requires
        retry_hint(message).is_none(),
    ensures
        wait_seconds(RATE_LIMIT_STATUS, message, 0) == 1,
        wait_seconds(RATE_LIMIT_STATUS, message, 1) == 2,
        wait_seconds(RATE_LIMIT_STATUS, message, 2) == 4,
        wait_seconds(RATE_LIMIT_STATUS, message, 3) == 8,
        wait_seconds(RATE_LIMIT_STATUS, message, 4) == 16,
        wait_seconds(RATE_LIMIT_STATUS, message, retry_count) <= RATE_LIMIT_CAP,
        retry_count <= 6 ==> wait_seconds(RATE_LIMIT_STATUS, message, retry_count) == pow2(
            retry_count,
        ),
        retry_count >= 7 ==> wait_seconds(RATE_LIMIT_STATUS, message, retry_count)
            == RATE_LIMIT_CAP,
{
    reveal_with_fuel(pow2, 8);
    assert(pow2(7) == 128);
    if retry_count >= 7 {
        lemma_pow2_monotonic(7, retry_count);
    }
}

/// Retry ceiling: a call whose attempts all fail is retried exactly
/// `MAX_RETRIES` times and given up at the attempt after those, whatever
/// the failures were.
pub proof fn lemma_gives_up_after_max_retries(
    decision: RetryDecision,
    retry_count: nat,
    status: u16,
    message: Seq<char>,
)
    requires
        decides(decision, retry_count, status, message),
    ensures
        decision is GiveUp <==> retry_count >= MAX_RETRIES,
        decision is Retry <==> retry_count < MAX_RETRIES,
{
}

} // verus!
