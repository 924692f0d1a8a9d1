use crate::error::AISDKError;
use crate::text::{
    ascii_lower, ascii_lower_char, ascii_upper, ascii_upper_char, char_is_whitespace, chars_of, is_ascii_text,
    is_white_space, lowercase_of, to_lowercase,
};
use std::time::Duration;
use tokio_util::sync::CancellationToken;
use vstd::arithmetic::power2::{lemma2_to64, lemma_pow2_unfold, pow2};
use vstd::prelude::*;

verus! {

/// The largest retry delay, in seconds, that a hint in an error message can ask for.
pub const MAX_RETRY_DELAY_SECS: u64 = 3600;

/// The retry count used when the caller gives none.
pub const DEFAULT_MAX_RETRIES: u32 = 2;

pub open spec fn is_digit(c: char) -> bool {
    '0' <= c && c <= '9'
}

pub open spec fn digit_value(c: char) -> nat {
    ((c as u32) - ('0' as u32)) as nat
}

/// The number that a sequence of decimal digits denotes.
pub open spec fn digits_value(w: Seq<char>) -> nat
    decreases w.len(),
{
    if w.len() == 0 {
        0
    } else {
        digits_value(w.drop_last()) * 10 + digit_value(w.last())
    }
}

pub open spec fn all_digits(w: Seq<char>) -> bool {
    forall|i: int| 0 <= i < w.len() ==> is_digit(#[trigger] w[i])
}

/// What `str::parse::<u64>` gives for a string that starts with a digit:
/// its value when every character is a digit and the value fits.
pub open spec fn parse_digits(w: Seq<char>) -> Option<u64> {
    if w.len() > 0 && all_digits(w) && digits_value(w) <= u64::MAX {
        Some(digits_value(w) as u64)
    } else {
        None
    }
}

/// The first position at or after `i` that is not white space.
pub open spec fn skip_white(s: Seq<char>, i: int) -> int
    decreases s.len() - i,
{
    if i < 0 || i >= s.len() {
        i
    } else if is_white_space(s[i]) {
        skip_white(s, i + 1)
    } else {
        i
    }
}

/// The first position at or after `i` that is white space, or the end.
pub open spec fn word_end(s: Seq<char>, i: int) -> int
    decreases s.len() - i,
{
    if i < 0 || i >= s.len() {
        i
    } else if is_white_space(s[i]) {
        i
    } else {
        word_end(s, i + 1)
    }
}

/// The first digit of `s` in `[i, b)`, or `b`.
pub open spec fn first_digit_in(s: Seq<char>, i: int, b: int) -> int
    decreases b - i,
{
    if i >= b {
        b
    } else if is_digit(s[i]) {
        i
    } else {
        first_digit_in(s, i + 1, b)
    }
}

/// One past the last digit of `s` in `[a, j)`, or `a`.
pub open spec fn digit_end_in(s: Seq<char>, a: int, j: int) -> int
    decreases j - a,
{
    if j <= a {
        a
    } else if is_digit(s[j - 1]) {
        j
    } else {
        digit_end_in(s, a, j - 1)
    }
}

/// The word `s[a..b]` with every leading and trailing non-digit removed
/// (`str::trim_matches` with the predicate "is not an ASCII digit").
pub open spec fn trimmed_word(s: Seq<char>, a: int, b: int) -> Seq<char> {
    let lo = first_digit_in(s, a, b);
    let hi = digit_end_in(s, a, b);
    if lo < hi {
        s.subrange(lo, hi)
    } else {
        Seq::empty()
    }
}

/// Walks the white-space separated words of `s` from position `i` and gives
/// the number of the first word that, trimmed, parses as a `u64`.
pub open spec fn first_number_from(s: Seq<char>, i: int) -> Option<u64>
    decreases s.len() - i,
{
    let a = skip_white(s, i);
    if a < 0 || a >= s.len() {
        None
    } else {
        let b = word_end(s, a);
        match parse_digits(trimmed_word(s, a, b)) {
            Some(n) => Some(n),
            None => if i < b <= s.len() {
                first_number_from(s, b)
            } else {
                None
            },
        }
    }
}

pub open spec fn occurs_at(s: Seq<char>, pat: Seq<char>, i: int) -> bool {
    0 <= i && i + pat.len() <= s.len() && s.subrange(i, i + pat.len()) == pat
}

/// The first position at or after `i` where `pat` occurs in `s`.
pub open spec fn find_from(s: Seq<char>, pat: Seq<char>, i: int) -> Option<int>
    decreases s.len() + 1 - i,
{
    if i < 0 || i + pat.len() > s.len() {
        None
    } else if occurs_at(s, pat, i) {
        Some(i)
    } else {
        find_from(s, pat, i + 1)
    }
}

pub open spec fn retry_word() -> Seq<char> {
    seq!['r', 'e', 't', 'r', 'y']
}

/// The retry delay, in seconds, that an error message asks for: in the
/// lower-cased message, from the first "retry" on, the first word that is a
/// number once its non-digit ends are cut off, capped at one hour.
pub open spec fn retry_delay_secs(message: Seq<char>) -> Option<u64> {
    let lower = lowercase_of(message);
    match find_from(lower, retry_word(), 0) {
        None => None,
        Some(i) => match first_number_from(lower, i) {
            None => None,
            Some(n) => Some(if n > MAX_RETRY_DELAY_SECS { MAX_RETRY_DELAY_SECS } else { n }),
        },
    }
}

proof fn lemma_digits_value_prefix(w: Seq<char>, m: int)
    requires
        0 <= m <= w.len(),
    ensures
        digits_value(w.subrange(0, m)) <= digits_value(w),
    decreases w.len() - m,
{
    if m < w.len() {
        lemma_digits_value_prefix(w, m + 1);
        assert(w.subrange(0, m + 1).drop_last() =~= w.subrange(0, m));
    } else {
        assert(w.subrange(0, m) =~= w);
    }
}

/// Parses `s[lo..hi]` as a `u64`, as `parse_digits` says.
fn parse_range(s: &Vec<char>, lo: usize, hi: usize) -> (r: Option<u64>)
    requires
        lo < hi <= s@.len(),
    ensures
        r == parse_digits(s@.subrange(lo as int, hi as int)),
{
    let ghost w = s@.subrange(lo as int, hi as int);
    let mut value: u64 = 0;
    let mut k = lo;
    while k < hi
        invariant
            lo <= k <= hi <= s@.len(),
            w == s@.subrange(lo as int, hi as int),
            all_digits(s@.subrange(lo as int, k as int)),
            value as nat == digits_value(s@.subrange(lo as int, k as int)),
        decreases hi - k,
    {
        let c = s[k];
        if !('0' <= c && c <= '9') {
            assert(w[k - lo] == c);
            return None;
        }
        let d = (c as u32 - '0' as u32) as u64;
        let ghost next = s@.subrange(lo as int, k + 1);
        assert(next.drop_last() =~= s@.subrange(lo as int, k as int));
        assert(digits_value(next) == value * 10 + d);
        if value > (u64::MAX - d) / 10 {
            proof {
                assert(digits_value(next) > u64::MAX) by (nonlinear_arith)
                    requires
                        value > (u64::MAX - d) / 10,
                        digits_value(next) == value * 10 + d,
                        d <= 9,
                ;
                if all_digits(w) {
                    assert(w.subrange(0, k + 1 - lo) =~= next);
                    lemma_digits_value_prefix(w, k + 1 - lo);
                }
            }
            return None;
        }
        value = value * 10 + d;
        k = k + 1;
        assert(all_digits(s@.subrange(lo as int, k as int))) by {
            assert forall|i: int| 0 <= i < s@.subrange(lo as int, k as int).len() implies is_digit(
                #[trigger] s@.subrange(lo as int, k as int)[i],
            ) by {
                if i < k - 1 - lo {
                    assert(s@.subrange(lo as int, k as int)[i] == s@.subrange(
                        lo as int,
                        k - 1,
                    )[i]);
                }
            }
        }
    }
    assert(s@.subrange(lo as int, k as int) =~= w);
    Some(value)
}

/// The number that the word `s[a..b]` denotes once trimmed, as
/// `parse_digits(trimmed_word(s, a, b))` says.
fn parse_trimmed_word(s: &Vec<char>, a: usize, b: usize) -> (r: Option<u64>)
    requires
        a <= b <= s@.len(),
    ensures
        r == parse_digits(trimmed_word(s@, a as int, b as int)),
{
    let mut lo = a;
    while lo < b && !('0' <= s[lo] && s[lo] <= '9')
        invariant
            a <= lo <= b <= s@.len(),
            first_digit_in(s@, a as int, b as int) == first_digit_in(s@, lo as int, b as int),
        decreases b - lo,
    {
        lo = lo + 1;
    }
    let mut hi = b;
    while hi > a && !('0' <= s[hi - 1] && s[hi - 1] <= '9')
        invariant
            a <= hi <= b <= s@.len(),
            digit_end_in(s@, a as int, b as int) == digit_end_in(s@, a as int, hi as int),
        decreases hi - a,
    {
        hi = hi - 1;
    }
    if lo < hi {
        parse_range(s, lo, hi)
    } else {
        None
    }
}

/// The number of the first word of `s` from `start` on that parses once
/// trimmed, as `first_number_from` says.
fn first_number(s: &Vec<char>, start: usize) -> (r: Option<u64>)
    requires
        start <= s@.len(),
    ensures
        r == first_number_from(s@, start as int),
{
    let n = s.len();
    let mut pos = start;
    while pos < n
        invariant
            start <= pos <= n == s@.len(),
            first_number_from(s@, start as int) == first_number_from(s@, pos as int),
        decreases n - pos,
    {
        let mut a = pos;
        while a < n && char_is_whitespace(s[a])
            invariant
                pos <= a <= n == s@.len(),
                skip_white(s@, pos as int) == skip_white(s@, a as int),
            decreases n - a,
        {
            a = a + 1;
        }
        if a >= n {
            return None;
        }
        let mut b = a;
        while b < n && !char_is_whitespace(s[b])
            invariant
                a <= b <= n == s@.len(),
                word_end(s@, a as int) == word_end(s@, b as int),
            decreases n - b,
        {
            b = b + 1;
        }
        assert(b > a);
        assert(skip_white(s@, pos as int) == a as int);
        assert(word_end(s@, a as int) == b as int);
        let r = parse_trimmed_word(s, a, b);
        if r.is_some() {
            return r;
        }
        pos = b;
    }
    None
}

/// The first position at which `pat` occurs in `s`, as `find_from(s, pat, 0)` says.
fn find_first(s: &Vec<char>, pat: &Vec<char>) -> (r: Option<usize>)
    requires
        pat@.len() > 0,
    ensures
        match r {
            Some(i) => find_from(s@, pat@, 0) == Some(i as int) && i + pat@.len() <= s@.len(),
            None => find_from(s@, pat@, 0) is None,
        },
{
    let n = s.len();
    let m = pat.len();
    if m > n {
        return None;
    }
    let mut i: usize = 0;
    while i <= n - m
        invariant
            0 < m <= n == s@.len(),
            m == pat@.len(),
            i <= n - m + 1,
            find_from(s@, pat@, 0) == find_from(s@, pat@, i as int),
        decreases n + 1 - i,
    {
        let mut j: usize = 0;
        let mut matched = true;
        while j < m
            invariant
                i + m <= n == s@.len(),
                m == pat@.len(),
                j <= m,
                matched ==> forall|k: int| 0 <= k < j ==> s@[i + k] == pat@[k],
                !matched ==> !occurs_at(s@, pat@, i as int),
            decreases m - j,
        {
            if matched && s[i + j] != pat[j] {
                assert(s@.subrange(i as int, i + m)[j as int] == s@[i + j]);
                matched = false;
            }
            j = j + 1;
        }
        if matched {
            assert(s@.subrange(i as int, i + m) =~= pat@);
            return Some(i);
        }
        i = i + 1;
    }
    None
}

/// The retry delay, in seconds, that an error message asks for.
pub fn retry_delay_seconds(error_message: &str) -> (r: Option<u64>)
    ensures
        r == retry_delay_secs(error_message@),
{
    let lower = to_lowercase(error_message);
    let chars = chars_of(lower.as_str());
    let pat: Vec<char> = vec!['r', 'e', 't', 'r', 'y'];
    assert(pat@ =~= retry_word());
    match find_first(&chars, &pat) {
        None => None,
        Some(i) => match first_number(&chars, i) {
            None => None,
            Some(n) => Some(if n > MAX_RETRY_DELAY_SECS { MAX_RETRY_DELAY_SECS } else { n }),
        },
    }
}

/// The duration of a whole number of seconds.
pub uninterp spec fn duration_of_secs(secs: u64) -> Duration;

/// Calls `Duration::from_secs`; its result is named `duration_of_secs` of
/// the argument.
#[verifier::external_body]
fn duration_from_secs(secs: u64) -> (d: Duration)
    ensures
        d == duration_of_secs(secs),
{
    Duration::from_secs(secs)
}

/// Extracts a retry delay hint ("retry after 60 seconds", "retry-after: 30")
/// from an error message.
pub fn extract_retry_delay_from_error(error_message: &str) -> (r: Option<Duration>)
    ensures
        r == match retry_delay_secs(error_message@) {
            Some(s) => Some(duration_of_secs(s)),
            None => None,
        },
{
    match retry_delay_seconds(error_message) {
        Some(s) => Some(duration_from_secs(s)),
        None => None,
    }
}

/// The error of a failed model call, from its message: retryable after the
/// delay that the message names, when it names one, else a model error.
pub fn model_call_error(message: &str) -> (e: AISDKError)
    ensures
        match retry_delay_secs(message@) {
            Some(s) => e matches AISDKError::RetryableError { message: m, retry_after: r } && m@ == message@
                && r == Some(duration_of_secs(s)),
            None => e matches AISDKError::ModelError { message: m } && m@ == message@,
        },
{
    match extract_retry_delay_from_error(message) {
        Some(d) => AISDKError::retryable_error_with_delay(message, d),
        None => AISDKError::model_error(message),
    }
}

/// Declares the cancellation token that a caller can hand in to stop retrying.
#[verifier::external_type_specification]
#[verifier::external_body]
pub struct ExCancellationToken(CancellationToken);

/// Configuration for retry behavior.
pub struct RetryConfig {
    pub max_retries: u32,
    pub abort_signal: Option<CancellationToken>,
}

/// Validates and prepares the retry configuration: `max_retries` defaults to 2.
pub fn prepare_retries(max_retries: Option<u32>, abort_signal: Option<CancellationToken>) -> (r:
    Result<RetryConfig, AISDKError>)
    ensures
        r matches Ok(c) && c.max_retries == match max_retries {
            Some(m) => m,
            None => DEFAULT_MAX_RETRIES,
        } && c.abort_signal == abort_signal,
{
    let max_retries_result = match max_retries {
        Some(m) => m,
        None => DEFAULT_MAX_RETRIES,
    };
    Ok(RetryConfig { max_retries: max_retries_result, abort_signal })
}

/// The first back-off delay, in milliseconds.
pub const INITIAL_BACKOFF_MS: u128 = 100;

/// The longest `Duration` there is, in whole milliseconds.
pub const MAX_DURATION_MS: u128 = 18446744073709551615999;

/// The back-off delay, in milliseconds, after `k` failed attempts: it starts
/// at 100 ms and doubles with each retry.
pub open spec fn backoff_ms(k: nat) -> nat
    decreases k,
{
    if k == 0 {
        INITIAL_BACKOFF_MS as nat
    } else {
        2 * backoff_ms((k - 1) as nat)
    }
}

/// Where a run of attempts stands: how many retries were made and the
/// back-off delay that the next retry uses when no hint overrides it.
#[derive(Debug, Clone, Copy, PartialEq, Eq)]
pub struct RetryState {
    pub retries: u32,
    pub default_delay_ms: u128,
}

impl RetryState {
    /// The back-off delay is the one that the number of retries made calls for.
    pub open spec fn wf(&self) -> bool {
        self.default_delay_ms as nat == backoff_ms(self.retries as nat)
    }

    /// The state before the first attempt.
    pub fn initial() -> (s: RetryState)
        ensures
            s.retries == 0,
            s.default_delay_ms == INITIAL_BACKOFF_MS,
            s.wf(),
    {
        RetryState { retries: 0, default_delay_ms: INITIAL_BACKOFF_MS }
    }
}

/// What to do after an attempt failed.
#[derive(Debug)]
pub enum RetryStep {
    /// Stop and report this error.
    GiveUp(AISDKError),
    /// Wait this many milliseconds, then attempt again.
    Wait { delay_ms: u128 },
}

/// The error reported when the abort signal is found cancelled before an attempt.
pub fn cancelled_error() -> (e: AISDKError)
    ensures
        e matches AISDKError::ModelError { message: m } && m@ == "Operation cancelled"@,
{
    AISDKError::model_error("Operation cancelled")
}

impl RetryConfig {
    /// Decides, after a failed attempt whose error reads `error_message`,
    /// whether to give up or to wait and retry, and gives the state for the
    /// next attempt. A retry waits as long as the message's retry hint asks
    /// (capped at one hour), else the current back-off delay, and the
    /// back-off delay doubles.
    pub fn after_failure(&self, state: &RetryState, error_message: &str) -> (r: (RetryStep, RetryState))
        requires
            state.wf(),
            state.retries < self.max_retries ==> 2 * state.default_delay_ms <= MAX_DURATION_MS,
        ensures
            state.retries >= self.max_retries ==> {
                &&& r.0 matches RetryStep::GiveUp(AISDKError::ModelError { message: m })
                &&& m@ == error_message@
                &&& r.1 == *state
            },
            state.retries < self.max_retries ==> {
                &&& r.0 matches RetryStep::Wait { delay_ms: d }
                &&& d == match retry_delay_secs(error_message@) {
                    Some(secs) => secs * 1000,
                    None => state.default_delay_ms as int,
                }
                &&& r.1.retries == state.retries + 1
                &&& r.1.default_delay_ms == 2 * state.default_delay_ms
            },
            r.1.wf(),
    {
        if state.retries >= self.max_retries {
            return (RetryStep::GiveUp(AISDKError::model_error(error_message)), RetryState { ..*state });
        }
        let delay_ms = match retry_delay_seconds(error_message) {
            Some(secs) => (secs as u128) * 1000,
            None => state.default_delay_ms,
        };
        let next = RetryState { retries: state.retries + 1, default_delay_ms: 2 * state.default_delay_ms };
        (RetryStep::Wait { delay_ms }, next)
    }
}

/// The search for a retry hint ignores the case of letters: an ASCII message
/// and the same message with its letters in upper case ask for the same
/// delay.
pub proof fn lemma_retry_delay_case_insensitive(message: Seq<char>)
    requires
        is_ascii_text(message),
    ensures
        retry_delay_secs(ascii_upper(message)) == retry_delay_secs(message),
{
    let up = ascii_upper(message);
    assert forall|i: int| 0 <= i < up.len() implies (#[trigger] up[i] as u32) < 128 by {
        let c = message[i];
        assert((c as u32) < 128);
        if 'a' <= c && c <= 'z' {
            assert((((c as u32) - 32) as char) as u32 == (c as u32) - 32);
        }
    }
    assert forall|i: int| 0 <= i < message.len() implies #[trigger] ascii_lower_char(ascii_upper_char(message[i]))
        == ascii_lower_char(message[i]) by {
        let c = message[i];
        if 'a' <= c && c <= 'z' {
            assert((((c as u32) - 32) as char) as u32 == (c as u32) - 32);
            assert((((((c as u32) - 32) as char) as u32) + 32) as char == c);
        }
    }
    assert(ascii_lower(up) =~= ascii_lower(message));
}

/// A retry hint never asks for more than an hour.
pub proof fn lemma_retry_delay_capped(message: Seq<char>)
    ensures
        retry_delay_secs(message) matches Some(d) ==> d <= MAX_RETRY_DELAY_SECS,
{
}

/// The back-off delay after `k` failed attempts is 100 ms times 2 to the
/// power `k`.
pub proof fn lemma_backoff_doubles(k: nat)
    ensures
        backoff_ms(k) == INITIAL_BACKOFF_MS * pow2(k),
    decreases k,
{
    if k == 0 {
        lemma2_to64();
    } else {
        lemma_backoff_doubles((k - 1) as nat);
        lemma_pow2_unfold(k);
        assert(INITIAL_BACKOFF_MS * pow2(k) == 2 * (INITIAL_BACKOFF_MS * pow2((k - 1) as nat))) by (nonlinear_arith)
            requires
                pow2(k) == 2 * pow2((k - 1) as nat),
        ;
    }
}

/// How many times a run of attempts that keeps failing waits and tries
/// again, from the state in which `retries` retries were made, before it
/// gives up; `after_failure` waits exactly while fewer than `max_retries`
/// retries were made.
pub open spec fn waits_before_giving_up(max_retries: nat, retries: nat) -> nat
    decreases max_retries - retries,
{
    if retries >= max_retries {
        0
    } else {
        1 + waits_before_giving_up(max_retries, retries + 1)
    }
}

/// A run of attempts that keeps failing retries `max_retries` times: it
/// makes `max_retries + 1` attempts, then gives up.
pub proof fn lemma_gives_up_after_max_retries(max_retries: nat, retries: nat)
    requires
        retries <= max_retries,
    ensures
        waits_before_giving_up(max_retries, retries) == max_retries - retries,
    decreases max_retries - retries,
{
    if retries < max_retries {
        lemma_gives_up_after_max_retries(max_retries, retries + 1);
    }
}

} // verus!
