//! RPC failures: what their text says of them, and when a call is tried again.

use crate::text::{
    contains, contains_text, decimal, law_decimal_parses_back, lemma_contains_between, parse_usize,
    parsed_usize,
};
use vstd::arithmetic::power2::{
    lemma2_to64, lemma_pow2_strictly_increases, lemma_pow2_unfold, pow2,
};
use vstd::prelude::*;
use vstd::string::*;

verus! {

/// A failed RPC call, by the three texts that the error is shown as.
#[derive(Debug)]
pub struct RpcError {
    /// The error alone.
    pub summary: String,
    /// The error and its causes, in one line.
    pub chain: String,
    /// The error as developers see it.
    pub debug: String,
}

impl Clone for RpcError {
    fn clone(&self) -> (r: RpcError)
        ensures
            r == *self,
    {
        RpcError {
            summary: self.summary.clone(),
            chain: self.chain.clone(),
            debug: self.debug.clone(),
        }
    }
}

// ---------------------------------------------------------------------------------------------
// Classification
// ---------------------------------------------------------------------------------------------

/// The text says that the endpoint does not know the method.
pub open spec fn says_method_not_found(s: Seq<char>) -> bool {
    contains_text(s, "method not found"@) || contains_text(s, "Method not found"@)
}

/// The text says that the proof window of the endpoint does not reach the block.
pub open spec fn says_proof_window(s: Seq<char>) -> bool {
    contains_text(s, "proof window"@) || contains_text(s, "distance to target block"@)
}

/// The text says that the endpoint no longer has, or does not yet have, the state of the block.
pub open spec fn says_historical_state_unavailable(s: Seq<char>) -> bool {
    ||| contains_text(s, "not supported"@)
    ||| contains_text(s, "missing trie node"@)
    ||| contains_text(s, "unknown ancestor"@)
    ||| contains_text(s, "header not found"@)
    ||| contains_text(s, "state is not available"@)
    ||| contains_text(s, "historical state"@)
    ||| contains_text(s, "proof window"@)
    ||| contains_text(s, "distance to target block"@)
}

/// The text names a failure that may pass: overload, a rate limit, a short disconnect.
pub open spec fn says_transient(s: Seq<char>) -> bool {
    ||| contains_text(s, "HTTP error 503"@)
    ||| contains_text(s, "Unable to complete request at this time"@)
    ||| contains_text(s, "HTTP error 429"@)
    ||| contains_text(s, "Too Many Requests"@)
    ||| contains_text(s, "timed out"@)
    ||| contains_text(s, "timeout"@)
    ||| contains_text(s, "connection reset"@)
    ||| contains_text(s, "Connection refused"@)
    ||| contains_text(s, "broken pipe"@)
    ||| contains_text(s, "temporarily unavailable"@)
}

/// Whether the text says that the endpoint does not know the method.
pub fn is_method_not_found_str(s: &str) -> (r: bool)
    ensures
        r == says_method_not_found(s@),
{
    contains(s, "method not found") || contains(s, "Method not found")
}

/// Whether the text says that the proof window of the endpoint does not reach the block.
pub fn is_proof_window_str(s: &str) -> (r: bool)
    ensures
        r == says_proof_window(s@),
{
    contains(s, "proof window") || contains(s, "distance to target block")
}

/// Whether the text says that the state of the block is not to be had from the endpoint.
pub fn is_historical_state_unavailable_str(s: &str) -> (r: bool)
    ensures
        r == says_historical_state_unavailable(s@),
{
    contains(s, "not supported") || contains(s, "missing trie node") || contains(
        s,
        "unknown ancestor",
    ) || contains(s, "header not found") || contains(s, "state is not available") || contains(
        s,
        "historical state",
    ) || contains(s, "proof window") || contains(s, "distance to target block")
}

/// Whether the error, with its causes, says that the endpoint does not know the method.
pub fn is_method_not_found_opaque(err: &RpcError) -> (r: bool)
    ensures
        r == says_method_not_found(err.chain@),
{
    is_method_not_found_str(err.chain.as_str())
}

/// Whether the error, with its causes, says that the state of the block is not to be had.
pub fn is_historical_state_unavailable_opaque(err: &RpcError) -> (r: bool)
    ensures
        r == says_historical_state_unavailable(err.chain@),
{
    is_historical_state_unavailable_str(err.chain.as_str())
}

/// Whether the call that failed with `err` is worth another try.
pub fn should_retry_rpc_error(err: &RpcError) -> (r: bool)
    ensures
        r == says_transient(err.debug@),
{
    let s = err.debug.as_str();
    contains(s, "HTTP error 503") || contains(s, "Unable to complete request at this time")
        || contains(s, "HTTP error 429") || contains(s, "Too Many Requests") || contains(
        s,
        "timed out",
    ) || contains(s, "timeout") || contains(s, "connection reset") || contains(
        s,
        "Connection refused",
    ) || contains(s, "broken pipe") || contains(s, "temporarily unavailable")
}

/// The text names a failure after which the node cannot answer about a block at all: an unknown
/// method, missing state, or a block beyond the proof window.
pub open spec fn says_node_cannot_serve(s: Seq<char>) -> bool {
    says_method_not_found(s) || says_historical_state_unavailable(s) || says_proof_window(s)
}

/// Whether the error, with its causes, says that the node cannot answer about the block at all.
pub fn node_cannot_serve(err: &RpcError) -> (r: bool)
    ensures
        r == says_node_cannot_serve(err.chain@),
{
    let s = err.chain.as_str();
    is_method_not_found_str(s) || is_historical_state_unavailable_str(s) || is_proof_window_str(s)
}

/// A block beyond the proof window is one whose historical state is unavailable.
pub proof fn law_proof_window_is_historical(s: Seq<char>)
    ensures
        says_proof_window(s) ==> says_historical_state_unavailable(s),
        says_node_cannot_serve(s) == (says_method_not_found(s)
            || says_historical_state_unavailable(s)),
{
}

/// A text around one of the known phrases is classified by it, whatever else it says.
pub proof fn law_phrases_classify_the_failure(before: Seq<char>, behind: Seq<char>)
    ensures
        says_method_not_found(before + "method not found"@ + behind),
        says_method_not_found(before + "Method not found"@ + behind),
        says_proof_window(before + "proof window"@ + behind),
        says_proof_window(before + "distance to target block"@ + behind),
        says_historical_state_unavailable(before + "not supported"@ + behind),
        says_historical_state_unavailable(before + "missing trie node"@ + behind),
        says_historical_state_unavailable(before + "unknown ancestor"@ + behind),
        says_historical_state_unavailable(before + "header not found"@ + behind),
        says_historical_state_unavailable(before + "state is not available"@ + behind),
        says_historical_state_unavailable(before + "historical state"@ + behind),
        says_historical_state_unavailable(before + "proof window"@ + behind),
        says_historical_state_unavailable(before + "distance to target block"@ + behind),
        says_transient(before + "HTTP error 503"@ + behind),
        says_transient(before + "Unable to complete request at this time"@ + behind),
        says_transient(before + "HTTP error 429"@ + behind),
        says_transient(before + "Too Many Requests"@ + behind),
        says_transient(before + "timed out"@ + behind),
        says_transient(before + "timeout"@ + behind),
        says_transient(before + "connection reset"@ + behind),
        says_transient(before + "Connection refused"@ + behind),
        says_transient(before + "broken pipe"@ + behind),
        says_transient(before + "temporarily unavailable"@ + behind),
{
    lemma_contains_between(before, "method not found"@, behind);
    lemma_contains_between(before, "Method not found"@, behind);
    lemma_contains_between(before, "proof window"@, behind);
    lemma_contains_between(before, "distance to target block"@, behind);
    lemma_contains_between(before, "not supported"@, behind);
    lemma_contains_between(before, "missing trie node"@, behind);
    lemma_contains_between(before, "unknown ancestor"@, behind);
    lemma_contains_between(before, "header not found"@, behind);
    lemma_contains_between(before, "state is not available"@, behind);
    lemma_contains_between(before, "historical state"@, behind);
    lemma_contains_between(before, "HTTP error 503"@, behind);
    lemma_contains_between(before, "Unable to complete request at this time"@, behind);
    lemma_contains_between(before, "HTTP error 429"@, behind);
    lemma_contains_between(before, "Too Many Requests"@, behind);
    lemma_contains_between(before, "timed out"@, behind);
    lemma_contains_between(before, "timeout"@, behind);
    lemma_contains_between(before, "connection reset"@, behind);
    lemma_contains_between(before, "Connection refused"@, behind);
    lemma_contains_between(before, "broken pipe"@, behind);
    lemma_contains_between(before, "temporarily unavailable"@, behind);
}

/// A text that holds none of the phrases for a kind of failure is not of that kind.
pub proof fn law_other_texts_are_not_classified(s: Seq<char>)
    ensures
        !contains_text(s, "method not found"@) && !contains_text(s, "Method not found"@)
            ==> !says_method_not_found(s),
        !contains_text(s, "proof window"@) && !contains_text(s, "distance to target block"@)
            ==> !says_proof_window(s),
        !contains_text(s, "not supported"@) && !contains_text(s, "missing trie node"@)
            && !contains_text(s, "unknown ancestor"@) && !contains_text(s, "header not found"@)
            && !contains_text(s, "state is not available"@) && !contains_text(
            s,
            "historical state"@,
        ) && !contains_text(s, "proof window"@) && !contains_text(s, "distance to target block"@)
            ==> !says_historical_state_unavailable(s),
        !contains_text(s, "HTTP error 503"@) && !contains_text(
            s,
            "Unable to complete request at this time"@,
        ) && !contains_text(s, "HTTP error 429"@) && !contains_text(s, "Too Many Requests"@)
            && !contains_text(s, "timed out"@) && !contains_text(s, "timeout"@) && !contains_text(
            s,
            "connection reset"@,
        ) && !contains_text(s, "Connection refused"@) && !contains_text(s, "broken pipe"@)
            && !contains_text(s, "temporarily unavailable"@) ==> !says_transient(s),
{
}

// ---------------------------------------------------------------------------------------------
// Limits from the environment
// ---------------------------------------------------------------------------------------------

/// The text of the first variable that is set.
pub open spec fn first_set(first: Option<Seq<char>>, second: Option<Seq<char>>) -> Option<
    Seq<char>,
> {
    if first is Some {
        first
    } else {
        second
    }
}

/// The positive number that the first set variable holds; `default` where none is set, or it
/// holds no number, or zero.
pub open spec fn positive_or(
    first: Option<Seq<char>>,
    second: Option<Seq<char>>,
    default: usize,
) -> usize {
    match first_set(first, second) {
        None => default,
        Some(text) => match parsed_usize(text) {
            Some(n) => if n >= 1 {
                n
            } else {
                default
            },
            None => default,
        },
    }
}

/// The text behind an optional string.
pub open spec fn opt_text(s: Option<String>) -> Option<Seq<char>> {
    match s {
        Some(text) => Some(text@),
        None => None,
    }
}

/// An optional text is there where its string is, with the same characters; of two variables the
/// first counts where it is set, and the second otherwise.
pub proof fn law_first_variable_wins(s: String, first: Seq<char>, second: Option<Seq<char>>)
    ensures
        opt_text(Some(s)) == Some(s@),
        opt_text(None) is None,
        first_set(Some(first), second) == Some(first),
        first_set(None, second) == second,
{
}

/// The positive number that the first set variable holds, or `default`.
fn positive_setting(first: &Option<String>, second: &Option<String>, default: usize) -> (r: usize)
    ensures
        r == positive_or(opt_text(*first), opt_text(*second), default),
{
    let chosen = match first {
        Some(text) => Some(text),
        None => match second {
            Some(text) => Some(text),
            None => None,
        },
    };
    match chosen {
        None => default,
        Some(text) => match parse_usize(text.as_str()) {
            Some(n) => if n >= 1 {
                n
            } else {
                default
            },
            None => default,
        },
    }
}

/// How many RPC calls run at a time: `OP_ZISK_RPC_CONCURRENCY`, else
/// `OP_SUCCINCT_RPC_CONCURRENCY`, else two.
pub fn rpc_concurrency(op_zisk: &Option<String>, op_succinct: &Option<String>) -> (r: usize)
    ensures
        r == positive_or(opt_text(*op_zisk), opt_text(*op_succinct), 2),
        r >= 1,
{
    positive_setting(op_zisk, op_succinct, 2)
}

/// How often an RPC call is tried: `OP_ZISK_RPC_RETRIES`, else `OP_SUCCINCT_RPC_RETRIES`, else
/// six times.
pub fn rpc_retries(op_zisk: &Option<String>, op_succinct: &Option<String>) -> (r: usize)
    ensures
        r == positive_or(opt_text(*op_zisk), opt_text(*op_succinct), 6),
        r >= 1,
{
    positive_setting(op_zisk, op_succinct, 6)
}

/// A setting is the positive number that the first set variable is written as; the second variable
/// counts only where the first is not set; zero, and what is no number, count as the default.
pub proof fn law_setting_is_the_first_positive_number(
    n: nat,
    first: Option<Seq<char>>,
    second: Option<Seq<char>>,
    default: usize,
)
    ensures
        positive_or(None, None, default) == default,
        1 <= n <= usize::MAX ==> positive_or(Some(decimal(n)), second, default) == n,
        1 <= n <= usize::MAX ==> positive_or(None, Some(decimal(n)), default) == n,
        positive_or(Some(decimal(0)), second, default) == default,
        first matches Some(text) ==> parsed_usize(text) is None ==> positive_or(
            first,
            second,
            default,
        ) == default,
        first is Some ==> positive_or(first, second, default) == positive_or(first, None, default),
        first is None ==> positive_or(first, second, default) == positive_or(second, None, default),
{
    law_decimal_parses_back(0);
    if n <= usize::MAX {
        law_decimal_parses_back(n);
    }
}

// ---------------------------------------------------------------------------------------------
// Retrying
// ---------------------------------------------------------------------------------------------

/// The pause behind the attempt with index `i`, in milliseconds: 250, doubled with every attempt,
/// at most 5000. The index counts modulo 2^32.
pub open spec fn backoff(i: nat) -> nat {
    let ms = 250 * pow2(i % 0x1_0000_0000);
    if ms < 5000 {
        ms
    } else {
        5000
    }
}

/// The pause behind the attempt with index `i`, in milliseconds.
pub fn backoff_ms(i: usize) -> (r: u64)
    ensures
        r == backoff(i as nat),
{
    let step: u64 = i as u64 % 0x1_0000_0000;
    proof {
        lemma2_to64();
        if step > 5 {
            lemma_pow2_strictly_increases(5, step as nat);
        }
    }
    if step == 0 {
        250
    } else if step == 1 {
        500
    } else if step == 2 {
        1000
    } else if step == 3 {
        2000
    } else if step == 4 {
        4000
    } else {
        5000
    }
}

/// A call that is tried up to `attempts` times, before its attempt with index `attempt`.
#[derive(Clone, Copy, Debug)]
pub struct Retry {
    pub attempts: usize,
    pub attempt: usize,
}

/// What follows a failed attempt.
#[derive(Clone, Copy, Debug)]
pub enum RetryDecision {
    /// The error is final.
    GiveUp,
    /// Wait that many milliseconds, then make the attempt that `next` stands before.
    Again { wait_ms: u64, next: Retry },
}

impl Retry {
    /// An attempt is left.
    pub open spec fn wf(self) -> bool {
        self.attempt < self.attempts
    }

    /// What follows when the current attempt fails with the text `debug`.
    pub open spec fn after(self, debug: Seq<char>) -> RetryDecision {
        if !says_transient(debug) || self.attempt + 1 == self.attempts {
            RetryDecision::GiveUp
        } else {
            RetryDecision::Again {
                wait_ms: backoff(self.attempt as nat) as u64,
                next: Retry { attempts: self.attempts, attempt: (self.attempt + 1) as usize },
            }
        }
    }
}

/// Before the first of `attempts` attempts.
pub fn retry_rpc(attempts: usize) -> (r: Retry)
    requires
        attempts >= 1,
    ensures
        r.wf(),
        r == (Retry { attempts, attempt: 0 }),
{
    Retry { attempts, attempt: 0 }
}

impl Retry {
    /// What follows the failure of the current attempt.
    pub fn on_error(&self, err: &RpcError) -> (r: RetryDecision)
        requires
            self.wf(),
        ensures
            r == self.after(err.debug@),
            r matches RetryDecision::Again { wait_ms, next } ==> next.wf() && wait_ms <= 5000,
    {
        if !should_retry_rpc_error(err) || self.attempt + 1 == self.attempts {
            RetryDecision::GiveUp
        } else {
            RetryDecision::Again {
                wait_ms: backoff_ms(self.attempt),
                next: Retry { attempts: self.attempts, attempt: self.attempt + 1 },
            }
        }
    }
}

/// How many attempts are made from `state` on when the attempts to come fail with the texts
/// `failures`, and the one behind them succeeds.
pub open spec fn attempts_made(state: Retry, failures: Seq<Seq<char>>) -> nat
    decreases failures.len(),
{
    if failures.len() == 0 {
        1
    } else {
        match state.after(failures[0]) {
            RetryDecision::GiveUp => 1,
            RetryDecision::Again { wait_ms, next } => 1 + attempts_made(next, failures.skip(1)),
        }
    }
}

/// A call is never made more often than it may be tried, whatever it fails with.
pub proof fn law_attempts_are_bounded(state: Retry, failures: Seq<Seq<char>>)
    requires
        state.wf(),
    ensures
        attempts_made(state, failures) <= state.attempts - state.attempt,
    decreases failures.len(),
{
    if failures.len() > 0 {
        if let RetryDecision::Again { wait_ms, next } = state.after(failures[0]) {
            law_attempts_are_bounded(next, failures.skip(1));
        }
    }
}

/// A call that keeps failing for a passing reason is made exactly as often as it may be tried.
pub proof fn law_transient_failures_use_every_attempt(state: Retry, failures: Seq<Seq<char>>)
    requires
        state.wf(),
        failures.len() >= state.attempts - state.attempt,
        forall|i: int| 0 <= i < failures.len() ==> says_transient(#[trigger] failures[i]),
    ensures
        attempts_made(state, failures) == state.attempts - state.attempt,
    decreases failures.len(),
{
    assert(says_transient(failures[0]));
    if let RetryDecision::Again { wait_ms, next } = state.after(failures[0]) {
        assert forall|i: int| 0 <= i < failures.skip(1).len() implies says_transient(
            #[trigger] failures.skip(1)[i],
        ) by {
            assert(failures.skip(1)[i] == failures[i + 1]);
        }
        law_transient_failures_use_every_attempt(next, failures.skip(1));
    }
}

/// A failure that will not pass ends the call at once.
pub proof fn law_lasting_failure_is_not_retried(state: Retry, failures: Seq<Seq<char>>)
    requires
        failures.len() > 0,
        !says_transient(failures[0]),
    ensures
        attempts_made(state, failures) == 1,
{
}

/// The pauses never get shorter, as long as the index has not wrapped around.
pub proof fn law_backoff_grows(i: nat, j: nat)
    requires
        i <= j < 0x1_0000_0000,
    ensures
        250 <= backoff(i) <= backoff(j) <= 5000,
{
    lemma2_to64();
    assert(i % 0x1_0000_0000 == i);
    assert(j % 0x1_0000_0000 == j);
    if i < j {
        lemma_pow2_strictly_increases(i, j);
    }
    if i > 0 {
        lemma_pow2_strictly_increases(0, i);
    }
}

/// The first pause takes a quarter of a second; each further one twice as long as the one before
/// it, but five seconds at most; the index of the attempt counts modulo 2^32.
pub proof fn law_backoff_doubles(i: nat)
    ensures
        backoff(0) == 250,
        i + 1 < 0x1_0000_0000 ==> backoff(i + 1) == if 2 * backoff(i) < 5000 {
            2 * backoff(i)
        } else {
            5000
        },
        backoff(i + 0x1_0000_0000) == backoff(i),
{
    lemma2_to64();
    if i + 1 < 0x1_0000_0000 {
        assert(i % 0x1_0000_0000 == i);
        assert((i + 1) % 0x1_0000_0000 == i + 1);
        lemma_pow2_unfold(i + 1);
    }
}

/// Another attempt is made exactly where the failure may pass and an attempt is left; it is the next
/// one of the same call, behind a pause that goes with the number of the failed one.
pub proof fn law_retry_goes_on_iff(state: Retry, debug: Seq<char>)
    requires
        state.attempt < state.attempts,
    ensures
        state.after(debug) is Again <==> says_transient(debug) && state.attempt + 1
            < state.attempts,
        state.after(debug) matches RetryDecision::Again { wait_ms, next } ==> {
            &&& next.attempts == state.attempts
            &&& next.attempt == state.attempt + 1
            &&& wait_ms == backoff(state.attempt as nat)
        },
{
}

} // verus!
