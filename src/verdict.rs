use vstd::prelude::*;
use crate::status::Status;
use crate::text::{
    decimal, decimal_string, is_white, join_lines, joined, lemma_joined_push_empty,
    lemma_normalized_lines, lemma_normalized_push_white, line_views, lines_match, no_crlf,
    normalized, split_lines, text_lines,
};

verus! {

/// Wall-clock limit for one run of the program under test.
pub const TIME_LIMIT_MS: u64 = 2000;

/// What became of one launch of the program under test.
pub enum RunOutcome {
    /// The program could not be started.
    SpawnFailed,
    /// The program exited within the limit.
    Completed { stdout: Vec<u8>, elapsed_ms: u64 },
    /// The program was killed at the limit; `stdout` is what it wrote before.
    TimedOut { stdout: Vec<u8> },
}

/// Result of one run: its class, the status-line message, and the lines
/// that replace the Output buffer, if any.
pub struct Verdict {
    pub status: Status,
    pub message: String,
    pub output: Option<Vec<String>>,
}

/// What `String::from_utf8_lossy` makes of a byte sequence.
pub uninterp spec fn lossy_of(b: Seq<u8>) -> Seq<char>;

/// Relies on `String::from_utf8_lossy`: the decoded text is a function of
/// the bytes alone.
#[verifier::external_body]
fn decode_lossy(b: &Vec<u8>) -> (r: String)
    ensures
        r@ == lossy_of(b@),
{
    String::from_utf8_lossy(b.as_slice()).into_owned()
}

/// Whether `output` holds lines whose texts are `lines`.
pub open spec fn shows(output: Option<Vec<String>>, lines: Seq<Seq<char>>) -> bool {
    output matches Some(v) && line_views(v@) == lines
}

/// Whether the actual output lines match the expected lines.
pub open spec fn passes(actual: Seq<Seq<char>>, expected: Seq<Seq<char>>) -> bool {
    normalized(joined(actual)) == normalized(joined(expected))
}

pub open spec fn empty_input_message() -> Seq<char> {
    "ERR: Empty Input"@
}

pub open spec fn spawn_failure_message(path: Seq<char>) -> Seq<char> {
    "ERR: Failed to execute "@ + path
}

pub open spec fn timeout_message() -> Seq<char> {
    "ERR: Time Limit Exceeded ("@ + decimal(TIME_LIMIT_MS as nat) + " ms)"@
}

pub open spec fn pass_message(ms: nat) -> Seq<char> {
    "AC | "@ + decimal(ms) + " ms"@
}

pub open spec fn fail_message(ms: nat) -> Seq<char> {
    "WA | "@ + decimal(ms) + " ms"@
}

/// Text to feed to the program: the Input lines joined by newlines. An
/// empty text ends the run at once with an error and no output.
pub fn prepare_run(input: &Vec<String>) -> (r: Result<String, Verdict>)
    ensures
        joined(line_views(input@)).len() == 0 <==> r is Err,
        r matches Ok(text) ==> text@ == joined(line_views(input@)),
        r matches Err(v) ==> v.status == Status::Error && v.message@ == empty_input_message()
            && v.output is None,
{
    let text = join_lines(input);
    if text.as_str().is_empty() {
        Err(Verdict { status: Status::Error, message: String::from_str("ERR: Empty Input"), output: None })
    } else {
        Ok(text)
    }
}

/// Verdict on output that the program wrote before it exited in `elapsed_ms`.
pub fn judge_output(stdout: &str, expected: &Vec<String>, elapsed_ms: u64) -> (r: Verdict)
    ensures
        shows(r.output, text_lines(stdout@)),
        passes(text_lines(stdout@), line_views(expected@)) ==> r.status == Status::Pass
            && r.message@ == pass_message(elapsed_ms as nat),
        !passes(text_lines(stdout@), line_views(expected@)) ==> r.status == Status::Fail
            && r.message@ == fail_message(elapsed_ms as nat),
{
    let chars = crate::text::chars_of(stdout);
    let lines = split_lines(&chars);
    let ok = lines_match(&lines, expected);
    let mut message = if ok {
        String::from_str("AC | ")
    } else {
        String::from_str("WA | ")
    };
    let ms = decimal_string(elapsed_ms);
    message.append(ms.as_str());
    message.append(" ms");
    let status = if ok {
        Status::Pass
    } else {
        Status::Fail
    };
    Verdict { status, message, output: Some(lines) }
}

/// What one launch of the program at `path` is judged to be, against the
/// expected lines.
pub open spec fn run_verdict(
    outcome: RunOutcome,
    expected: Seq<Seq<char>>,
    path: Seq<char>,
    r: Verdict,
) -> bool {
    match outcome {
        RunOutcome::SpawnFailed => r.status == Status::Error && r.message@
            == spawn_failure_message(path) && r.output is None,
        RunOutcome::TimedOut { stdout } => r.status == Status::Error && r.message@
            == timeout_message() && shows(r.output, text_lines(lossy_of(stdout@))),
        RunOutcome::Completed { stdout, elapsed_ms } => shows(
            r.output,
            text_lines(lossy_of(stdout@)),
        ) && if passes(text_lines(lossy_of(stdout@)), expected) {
            r.status == Status::Pass && r.message@ == pass_message(elapsed_ms as nat)
        } else {
            r.status == Status::Fail && r.message@ == fail_message(elapsed_ms as nat)
        },
    }
}

/// Verdict on one launch of the program at `path`.
pub fn finish_run(outcome: &RunOutcome, expected: &Vec<String>, path: &str) -> (r: Verdict)
    ensures
        run_verdict(*outcome, line_views(expected@), path@, r),
{
    match outcome {
        RunOutcome::SpawnFailed => {
            let mut message = String::from_str("ERR: Failed to execute ");
            message.append(path);
            Verdict { status: Status::Error, message, output: None }
        },
        RunOutcome::TimedOut { stdout } => {
            let text = decode_lossy(stdout);
            let chars = crate::text::chars_of(text.as_str());
            let lines = split_lines(&chars);
            let mut message = String::from_str("ERR: Time Limit Exceeded (");
            let limit = decimal_string(TIME_LIMIT_MS);
            message.append(limit.as_str());
            message.append(" ms)");
            Verdict { status: Status::Error, message, output: Some(lines) }
        },
        RunOutcome::Completed { stdout, elapsed_ms } => {
            let text = decode_lossy(stdout);
            judge_output(text.as_str(), expected, *elapsed_ms)
        },
    }
}

/// A blank last line, as a final newline leaves it, on either side does not
/// change whether the output passes.
pub proof fn lemma_trailing_blank_line(actual: Seq<Seq<char>>, expected: Seq<Seq<char>>)
    ensures
        passes(actual.push(Seq::empty()), expected) == passes(actual, expected),
        passes(actual, expected.push(Seq::empty())) == passes(actual, expected),
{
    assert(is_white('\n'));
    lemma_joined_push_empty(actual);
    lemma_joined_push_empty(expected);
    if actual.len() > 0 {
        lemma_normalized_push_white(joined(actual), '\n');
    }
    if expected.len() > 0 {
        lemma_normalized_push_white(joined(expected), '\n');
    }
}

/// A program that writes its input back unchanged passes exactly when the
/// expected lines equal the input once both are normalized (input without
/// CRLF line endings).
pub proof fn lemma_echo_passes(input: Seq<char>, expected: Seq<Seq<char>>)
    requires
        input.len() > 0,
        no_crlf(input),
    ensures
        passes(text_lines(input), expected) == (normalized(input) == normalized(
            joined(expected),
        )),
{
    lemma_normalized_lines(input);
}

} // verus!
