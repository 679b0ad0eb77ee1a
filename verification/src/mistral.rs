//! Rules of the hosted transcription request: how the request is prepared
//! from the settings, which answers are retried and after how long, and what
//! text or error a finished exchange yields.
//!
//! Sending the request and sleeping between attempts is done by the caller,
//! which asks `RetrySchedule` what to do after each attempt.

use crate::text;
use vstd::prelude::*;

verus! {

broadcast use vstd::string::group_string_axioms;

/// How many requests are sent at most for one transcription.
pub const MAX_RETRY_ATTEMPTS: u32 = 5;

/// The wait before the second request; each later wait doubles it.
pub const INITIAL_BACKOFF_MS: u64 = 1000;

pub open spec fn api_key_missing_message() -> Seq<char> {
    "Mistral API key is required."@
}

pub open spec fn base_url_missing_message() -> Seq<char> {
    "Mistral base URL is required."@
}

pub open spec fn invalid_authorization_message() -> Seq<char> {
    "Invalid authorization header value: failed to parse header value"@
}

pub open spec fn rate_limit_hint() -> Seq<char> {
    "Mistral rate limit exceeded. If you are on the free Experiment plan, this is probably their limit rather than Handy. Wait a bit, speak less frequently, or switch the key to a Scale plan."@
}

pub open spec fn user_agent() -> Seq<char> {
    "Handy/1.0 (+https://github.com/ShrootBuck/Handy)"@
}

/// Whether every byte may stand in an HTTP header value: visible ASCII,
/// space, tab, or any byte of a non-ASCII char; not DEL nor another control byte.
pub open spec fn header_value_bytes_ok(b: Seq<u8>) -> bool {
    forall|i: int| 0 <= i < b.len() ==> ((#[trigger] b[i] >= 32 && b[i] != 127) || b[i] == 9)
}

/// `reqwest::header::HeaderValue::from_str` (re-exported from `http`): it
/// succeeds exactly when every UTF-8 byte of `value` passes
/// `header_value_bytes_ok`; this reports whether it succeeded.
#[verifier::external_body]
fn header_value_accepted(value: &str) -> (ok: bool)
    ensures
        ok == header_value_bytes_ok(vstd::utf8::encode_utf8(value@)),
{
    reqwest::header::HeaderValue::from_str(value).is_ok()
}

/// The reason phrase that `http` registers for status `code`, if any.
pub uninterp spec fn status_reason(code: u16) -> Option<Seq<char>>;

/// `reqwest::StatusCode::from_u16(code)` then `canonical_reason()`: the
/// registered reason phrase of `code`, named by `status_reason`.
#[verifier::external_body]
fn canonical_reason(code: u16) -> (r: Option<String>)
    requires
        100 <= code <= 999,
    ensures
        match r {
            Some(s) => status_reason(code) == Some(s@),
            None => status_reason(code) is None,
        },
{
    match reqwest::StatusCode::from_u16(code) {
        Ok(status) => match status.canonical_reason() {
            Some(phrase) => Some(phrase.to_string()),
            None => None,
        },
        Err(_) => None,
    }
}

/// What a status code prints as: its number, a space and its reason phrase.
pub open spec fn status_line(code: u16) -> Seq<char> {
    text::decimal(code as nat) + " "@ + match status_reason(code) {
        Some(reason) => reason,
        None => "<unknown status code>"@,
    }
}

/// Renders a status code as `status_line` describes.
pub fn status_text(code: u16) -> (s: String)
    requires
        100 <= code <= 999,
    ensures
        s@ == status_line(code),
{
    let number = text::to_decimal(code as u64);
    let with_space = number.concat(" ");
    match canonical_reason(code) {
        Some(reason) => with_space.concat(reason.as_str()),
        None => with_space.concat("<unknown status code>"),
    }
}

/// Everything the caller needs to send one transcription request.
pub struct TranscriptionRequest {
    /// Endpoint of the audio transcription call.
    pub url: String,
    /// Value of the `Authorization` header.
    pub authorization: String,
    /// Value of the `User-Agent` header.
    pub user_agent: String,
    /// The `model` form field.
    pub model: String,
    /// The `language` form field, when one is sent.
    pub language: Option<String>,
    /// File name of the uploaded audio part.
    pub file_name: String,
    /// MIME type of the uploaded audio part.
    pub mime_type: String,
}

/// The endpoint reached from a configured base URL.
pub open spec fn request_url(base_url: Seq<char>) -> Seq<char> {
    text::trim_end_char(text::trim(base_url), '/') + "/audio/transcriptions"@
}

/// The `Authorization` header value for an API key.
pub open spec fn authorization_value(api_key: Seq<char>) -> Seq<char> {
    "Bearer "@ + text::trim(api_key)
}

/// The language sent: none when absent or blank, else unchanged.
pub open spec fn sent_language(language: Option<Seq<char>>) -> Option<Seq<char>> {
    match language {
        Some(l) => if text::trim(l).len() == 0 { None } else { Some(l) },
        None => None,
    }
}

pub open spec fn opt_view(o: Option<&str>) -> Option<Seq<char>> {
    match o {
        Some(s) => Some(s@),
        None => None,
    }
}

pub open spec fn opt_string_view(o: Option<String>) -> Option<Seq<char>> {
    match o {
        Some(s) => Some(s@),
        None => None,
    }
}

/// Why a request cannot be prepared for these credentials, if it can't.
pub open spec fn request_error(base_url: Seq<char>, api_key: Seq<char>) -> Option<Seq<char>> {
    if text::trim(api_key).len() == 0 {
        Some(api_key_missing_message())
    } else if text::trim_end_char(text::trim(base_url), '/').len() == 0 {
        Some(base_url_missing_message())
    } else if !header_value_bytes_ok(vstd::utf8::encode_utf8(authorization_value(api_key))) {
        Some(invalid_authorization_message())
    } else {
        None
    }
}

/// Checks the configured credentials and builds the request.
///
/// Fails, in this order, when the trimmed API key is empty, when the base
/// URL is empty once trimmed and stripped of trailing slashes, and when the
/// authorization value is not a valid header value.
pub fn prepare_transcription_request(
    base_url: &str,
    api_key: &str,
    model: &str,
    language: Option<&str>,
) -> (r: Result<TranscriptionRequest, String>)
    ensures
        match request_error(base_url@, api_key@) {
            Some(e) => r matches Err(m) && m@ == e,
            None => r is Ok,
        },
        r matches Ok(req) ==> {
            &&& req.url@ == request_url(base_url@)
            &&& req.authorization@ == authorization_value(api_key@)
            &&& req.user_agent@ == user_agent()
            &&& req.model@ == model@
            &&& opt_string_view(req.language) == sent_language(opt_view(language))
            &&& req.file_name@ == "recording.wav"@
            &&& req.mime_type@ == "audio/wav"@
        },
{
    let key = text::trimmed(api_key);
    if key.as_str().is_empty() {
        return Err("Mistral API key is required.".to_string());
    }
    let base = text::trimmed_then_strip_end(base_url, '/');
    if base.as_str().is_empty() {
        return Err("Mistral base URL is required.".to_string());
    }
    let url = base.concat("/audio/transcriptions");
    let authorization = "Bearer ".to_string().concat(key.as_str());
    if !header_value_accepted(authorization.as_str()) {
        return Err(
            "Invalid authorization header value: failed to parse header value".to_string(),
        );
    }
    let language = match language {
        Some(l) => if text::is_blank(l) {
            None
        } else {
            Some(l.to_string())
        },
        None => None,
    };
    Ok(TranscriptionRequest {
        url,
        authorization,
        user_agent: "Handy/1.0 (+https://github.com/ShrootBuck/Handy)".to_string(),
        model: model.to_string(),
        language,
        file_name: "recording.wav".to_string(),
        mime_type: "audio/wav".to_string(),
    })
}


/// How one attempt ended, as the caller observed it.
pub enum AttemptOutcome {
    /// The multipart upload could not be assembled; the failure's message.
    UploadFailed(String),
    /// The request got no answer; the message of the transport failure.
    TransportFailed(String),
    /// The service answered with `status`; `body` is the answer's text, or
    /// `"Failed to read response"` when it could not be read.
    Answered { status: u16, body: String },
}

/// What the caller does after an attempt.
pub enum AttemptVerdict {
    /// The answer is a success: parse its body and finish with `finish_success`.
    ParseBody,
    /// Wait `RetrySchedule::delay_before_attempt` and send again.
    Retry,
    /// Give up with this error.
    Fail(String),
}

pub open spec fn pow2(e: nat) -> nat
    decreases e,
{
    if e == 0 { 1 } else { 2 * pow2((e - 1) as nat) }
}

/// The wait before attempt number `attempt` (counted from zero).
pub open spec fn backoff_ms(attempt: nat) -> nat {
    if attempt == 0 { 0 } else { INITIAL_BACKOFF_MS as nat * pow2((attempt - 1) as nat) }
}

/// HTTP success: a 2xx status.
pub open spec fn is_success(status: u16) -> bool {
    200 <= status <= 299
}

/// Failure statuses worth another attempt: rate limiting, request timeout,
/// and every server error.
pub open spec fn is_retryable(status: u16) -> bool {
    status == 429 || status >= 500 || status == 408
}

/// The error reported for a non-success answer.
pub open spec fn status_error(status: u16, body: Seq<char>) -> Seq<char> {
    if status == 429 {
        rate_limit_hint() + "\n\nAPI Error: "@ + body
    } else {
        "Mistral API request failed with status "@ + status_line(status) + ": "@ + body
    }
}

/// The error reported when the upload could not be assembled.
pub open spec fn upload_error(message: Seq<char>) -> Seq<char> {
    "Failed to build audio upload: "@ + message
}

/// The error reported when the request got no answer.
pub open spec fn transport_error(message: Seq<char>) -> Seq<char> {
    "HTTP request failed: "@ + message
}

/// Whether another attempt may follow attempt number `attempt`.
pub open spec fn has_attempt_after(attempt: nat) -> bool {
    attempt + 1 < MAX_RETRY_ATTEMPTS
}

/// The schedule of attempts of one transcription: which attempt is next and
/// the error of the last failed one.
pub struct RetrySchedule {
    attempt: u32,
    last_error: String,
}

impl RetrySchedule {
    /// At most `MAX_RETRY_ATTEMPTS` attempts are ever scheduled.
    #[verifier::type_invariant]
    spec fn within_budget(self) -> bool {
        self.attempt < MAX_RETRY_ATTEMPTS
    }

    /// Number of the attempt about to be made, from zero.
    pub closed spec fn attempt(self) -> nat {
        self.attempt as nat
    }

    /// Error of the last failed attempt (empty before any failure).
    pub closed spec fn last_error(self) -> Seq<char> {
        self.last_error@
    }

    /// A schedule whose next attempt is the first.
    pub fn new() -> (s: Self)
        ensures
            s.attempt() == 0,
            s.last_error() == Seq::<char>::empty(),
            s.attempt() < MAX_RETRY_ATTEMPTS,
    {
        RetrySchedule { attempt: 0, last_error: String::new() }
    }

    /// Number of the attempt about to be made.
    pub fn current_attempt(&self) -> (n: u32)
        ensures
            n == self.attempt(),
            n < MAX_RETRY_ATTEMPTS,
    {
        proof {
            use_type_invariant(self);
        }
        self.attempt
    }

    /// How long to wait before the attempt about to be made.
    pub fn delay_before_attempt(&self) -> (ms: u64)
        ensures
            ms == backoff_ms(self.attempt()),
    {
        proof {
            use_type_invariant(self);
        }
        if self.attempt == 0 {
            return 0;
        }
        let mut ms: u64 = INITIAL_BACKOFF_MS;
        let mut k: u32 = 1;
        while k < self.attempt
            invariant
                1 <= k <= self.attempt < MAX_RETRY_ATTEMPTS,
                ms == INITIAL_BACKOFF_MS as nat * pow2((k - 1) as nat),
            decreases self.attempt - k,
        {
            assert(pow2(k as nat) == 2 * pow2((k - 1) as nat));
            assert(ms <= 8000) by {
                assert(pow2(0) == 1);
                assert(pow2(1) == 2);
                assert(pow2(2) == 4);
                assert(pow2(3) == 8);
            }
            ms = ms * 2;
            k = k + 1;
        }
        ms
    }

    /// The error of the last failed attempt.
    pub fn last_error_text(&self) -> (e: String)
        ensures
            e@ == self.last_error(),
    {
        self.last_error.clone()
    }

    /// Decides what follows the attempt just made.
    ///
    /// A success answer is to be parsed. A retryable answer or a transport
    /// failure is retried while attempts remain, remembering its error;
    /// anything else, or a failure on the last attempt, ends with its error.
    pub fn record(&mut self, outcome: AttemptOutcome) -> (v: AttemptVerdict)
        requires
            outcome matches AttemptOutcome::Answered { status, .. } ==> 100 <= status <= 999,
        ensures
            match outcome {
                AttemptOutcome::UploadFailed(m) => v matches AttemptVerdict::Fail(e) && e@
                    == upload_error(m@),
                AttemptOutcome::TransportFailed(m) => if has_attempt_after(old(self).attempt()) {
                    v is Retry && final(self).last_error() == transport_error(m@)
                } else {
                    v matches AttemptVerdict::Fail(e) && e@ == transport_error(m@)
                },
                AttemptOutcome::Answered { status, body } => if is_success(status) {
                    v is ParseBody
                } else if is_retryable(status) && has_attempt_after(old(self).attempt()) {
                    v is Retry && final(self).last_error() == status_error(status, body@)
                } else {
                    v matches AttemptVerdict::Fail(e) && e@ == status_error(status, body@)
                },
            },
            v is Retry ==> final(self).attempt() == old(self).attempt() + 1,
            outcome matches AttemptOutcome::Answered { status, .. } ==> (200 <= status <= 299
                <==> v is ParseBody),
            outcome matches AttemptOutcome::Answered { status, .. } && 500 <= status <= 599
                && old(self).attempt() + 1 < MAX_RETRY_ATTEMPTS ==> v is Retry,
            outcome matches AttemptOutcome::Answered { status, .. } && (status == 429 || status
                == 408) && old(self).attempt() + 1 < MAX_RETRY_ATTEMPTS ==> v is Retry,
            outcome matches AttemptOutcome::Answered { status, .. } && 400 <= status <= 499
                && status != 408 && status != 429 ==> v is Fail,
            old(self).attempt() + 1 >= MAX_RETRY_ATTEMPTS ==> !(v is Retry),
            final(self).attempt() < MAX_RETRY_ATTEMPTS,
            !(v is Retry) ==> final(self).attempt() == old(self).attempt()
                && final(self).last_error() == old(self).last_error(),
    {
        proof {
            use_type_invariant(&*self);
        }
        let more = self.attempt + 1 < MAX_RETRY_ATTEMPTS;
        match outcome {
            AttemptOutcome::UploadFailed(m) => {
                AttemptVerdict::Fail("Failed to build audio upload: ".to_string().concat(m.as_str()))
            },
            AttemptOutcome::TransportFailed(m) => {
                let e = "HTTP request failed: ".to_string().concat(m.as_str());
                if more {
                    self.last_error = e;
                    self.attempt = self.attempt + 1;
                    AttemptVerdict::Retry
                } else {
                    AttemptVerdict::Fail(e)
                }
            },
            AttemptOutcome::Answered { status, body } => {
                if 200 <= status && status <= 299 {
                    return AttemptVerdict::ParseBody;
                }
                let retryable = status == 429 || status >= 500 || status == 408;
                let e = if status == 429 {
                    rate_limit_hint_text().concat("\n\nAPI Error: ").concat(body.as_str())
                } else {
                    "Mistral API request failed with status ".to_string().concat(
                        status_text(status).as_str(),
                    ).concat(": ").concat(body.as_str())
                };
                if retryable && more {
                    self.last_error = e;
                    self.attempt = self.attempt + 1;
                    AttemptVerdict::Retry
                } else {
                    AttemptVerdict::Fail(e)
                }
            },
        }
    }
}

fn rate_limit_hint_text() -> (s: String)
    ensures
        s@ == rate_limit_hint(),
{
    "Mistral rate limit exceeded. If you are on the free Experiment plan, this is probably their limit rather than Handy. Wait a bit, speak less frequently, or switch the key to a Scale plan.".to_string()
}

/// Total wait before attempt number `n`: the sum of the waits before
/// attempts `1..=n`.
pub open spec fn total_backoff_ms(n: nat) -> nat
    decreases n,
{
    if n == 0 { 0 } else { total_backoff_ms((n - 1) as nat) + backoff_ms(n) }
}

/// Every server error (5xx) is retried while attempts remain, and so are
/// rate limiting (429) and request timeouts (408); any other client error
/// (4xx) and every success (2xx) is final at once.
pub proof fn server_errors_are_retried(status: u16, attempt: nat)
    requires
        attempt + 1 < MAX_RETRY_ATTEMPTS,
    ensures
        500 <= status <= 599 ==> !is_success(status) && is_retryable(status) && has_attempt_after(attempt),
        (status == 429 || status == 408) ==> !is_success(status) && is_retryable(status),
        400 <= status <= 499 && status != 408 && status != 429 ==> !is_retryable(status),
        200 <= status <= 299 <==> is_success(status),
{
}

/// The first retry waits one second, and each later one twice as long as
/// the one before.
pub proof fn backoff_doubles(attempt: nat)
    requires
        attempt >= 1,
    ensures
        backoff_ms(1) == 1000,
        backoff_ms(attempt + 1) == 2 * backoff_ms(attempt),
{
    assert(pow2(0) == 1);
    assert(pow2(attempt) == 2 * pow2((attempt - 1) as nat));
    assert(INITIAL_BACKOFF_MS as nat * (2 * pow2((attempt - 1) as nat)) == 2 * (
    INITIAL_BACKOFF_MS as nat * pow2((attempt - 1) as nat))) by (nonlinear_arith);
}

/// Over all the attempts a transcription may make, the waits add up to
/// fifteen seconds: 1, 2, 4 and 8 seconds before the second to fifth.
pub proof fn total_wait_is_bounded()
    ensures
        total_backoff_ms((MAX_RETRY_ATTEMPTS - 1) as nat) == 15000,
        backoff_ms(1) == 1000 && backoff_ms(2) == 2000 && backoff_ms(3) == 4000 && backoff_ms(4)
            == 8000,
{
    assert(pow2(0) == 1);
    assert(pow2(1) == 2);
    assert(pow2(2) == 4);
    assert(pow2(3) == 8);
    assert(total_backoff_ms(0) == 0);
    assert(total_backoff_ms(1) == 1000);
    assert(total_backoff_ms(2) == 3000);
    assert(total_backoff_ms(3) == 7000);
    assert(total_backoff_ms(4) == 15000);
}

/// The result of a success answer, given what parsing its body gave: the
/// transcribed text trimmed, or the parse failure with the body.
pub fn finish_success(parsed: Result<String, String>, body: &str) -> (r: Result<String, String>)
    ensures
        match parsed {
            Ok(t) => r matches Ok(out) && out@ == text::trim(t@),
            Err(e) => r matches Err(out) && out@ == "Failed to parse response: "@ + e@
                + " - body: "@ + body@,
        },
{
    match parsed {
        Ok(t) => Ok(text::trimmed(t.as_str())),
        Err(e) => Err(
            "Failed to parse response: ".to_string().concat(e.as_str()).concat(" - body: ").concat(
                body,
            ),
        ),
    }
}

} // verus!
