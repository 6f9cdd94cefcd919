//! The agent as a subprocess: how it is invoked, and what its exit means.
//!
//! The interpreter is started with the entry script and the user's message
//! as its two arguments, in the agent's project directory. Exit status zero
//! makes its standard output the answer; any other status makes its standard
//! error the reason for failure.

use vstd::prelude::*;
use vstd::string::*;
use vstd::utf8::{decode_utf8, decode_utf8_encode_utf8, encode_utf8, valid_utf8};
use crate::paths::{path_debug, quoted, AgentLocation, AgentLocationView};
use crate::text::{lemma_middle_occurs, lemma_tail_occurs, occurs_in, reply_text};

verus! {

/// What `String::from_utf8_lossy` returns for `bytes`: the text they encode,
/// with each malformed stretch replaced by U+FFFD.
pub uninterp spec fn lossy_text(bytes: Seq<u8>) -> Seq<char>;

/// Calls `String::from_utf8_lossy`. Trusted: the result is the one that
/// [`lossy_text`] names, and well-formed UTF-8 comes back as the text it
/// encodes.
#[verifier::external_body]
pub(crate) fn decode_lossy(bytes: &[u8]) -> (text: String)
    ensures
        text@ == lossy_text(bytes@),
        valid_utf8(bytes@) ==> text@ == decode_utf8(bytes@),
{
    String::from_utf8_lossy(bytes).into_owned()
}

/// How the agent is started.
#[derive(Debug, Clone, PartialEq, Eq)]
pub struct Invocation {
    /// The interpreter to run, looked up on the search path.
    pub program: String,
    /// First argument: the agent's entry script.
    pub script: String,
    /// Second argument: the user's message, as one argument.
    pub message: String,
    /// The directory the interpreter runs in.
    pub working_dir: String,
}

/// An [`Invocation`] as four texts.
pub struct InvocationView {
    pub program: Seq<char>,
    pub script: Seq<char>,
    pub message: Seq<char>,
    pub working_dir: Seq<char>,
}

impl View for Invocation {
    type V = InvocationView;

    open spec fn view(&self) -> InvocationView {
        InvocationView {
            program: self.program@,
            script: self.script@,
            message: self.message@,
            working_dir: self.working_dir@,
        }
    }
}

/// What a finished subprocess left behind.
#[derive(Debug, Clone, PartialEq, Eq)]
pub struct ProcessResult {
    /// Whether the exit status was zero.
    pub success: bool,
    /// Everything written to standard output.
    pub stdout: Vec<u8>,
    /// Everything written to standard error.
    pub stderr: Vec<u8>,
}

/// A [`ProcessResult`] with its streams as sequences of bytes.
pub struct ProcessResultView {
    pub success: bool,
    pub stdout: Seq<u8>,
    pub stderr: Seq<u8>,
}

impl View for ProcessResult {
    type V = ProcessResultView;

    open spec fn view(&self) -> ProcessResultView {
        ProcessResultView { success: self.success, stdout: self.stdout@, stderr: self.stderr@ }
    }
}

/// The invocation for an agent at `location` and a user's `message`.
pub open spec fn invocation_for(location: AgentLocationView, message: Seq<char>) -> InvocationView {
    InvocationView {
        program: "node"@,
        script: location.entry_script,
        message,
        working_dir: location.root,
    }
}

/// The error for an entry script that is not there, given the path as it is
/// shown to the user.
pub open spec fn missing_script_text(shown_path: Seq<char>) -> Seq<char> {
    "[Rust] Error: Agent JavaScript entry script not found at "@ + shown_path
        + ". Did you create 'run-agent.js' in the agent directory?"@
}

/// The error for an interpreter that could not be started.
pub open spec fn spawn_failure_text(reason: Seq<char>) -> Seq<char> {
    "[Rust] Failed to execute node process: "@ + reason
}

/// The error for an agent that ran and exited with a non-zero status.
pub open spec fn agent_failure_text(stderr_text: Seq<char>) -> Seq<char> {
    "[Rust] Mastra Agent failed: "@ + stderr_text
}

/// What is to be done once it is known whether the entry script exists: run
/// the agent, or fail naming the script.
pub open spec fn planned(location: AgentLocationView, message: Seq<char>, script_exists: bool)
    -> Result<InvocationView, Seq<char>> {
    if script_exists {
        Ok(invocation_for(location, message))
    } else {
        Err(missing_script_text(quoted(location.entry_script)))
    }
}

/// The reply for a process that ran to its end, given its two streams as
/// text.
pub open spec fn concluded(success: bool, stdout_text: Seq<char>, stderr_text: Seq<char>)
    -> Result<Seq<char>, Seq<char>> {
    if success {
        Ok(stdout_text)
    } else {
        Err(agent_failure_text(stderr_text))
    }
}

/// The reply for a finished process.
pub open spec fn interpreted(result: ProcessResultView) -> Result<Seq<char>, Seq<char>> {
    concluded(result.success, lossy_text(result.stdout), lossy_text(result.stderr))
}

/// The reply for an attempt to run the agent, whether or not it started.
pub open spec fn settled(outcome: Result<ProcessResultView, Seq<char>>) -> Result<
    Seq<char>,
    Seq<char>,
> {
    match outcome {
        Ok(result) => interpreted(result),
        Err(reason) => Err(spawn_failure_text(reason)),
    }
}

/// The view of what [`plan_invocation`] returns.
pub open spec fn plan_view(plan: Result<Invocation, String>) -> Result<InvocationView, Seq<char>> {
    match plan {
        Ok(invocation) => Ok(invocation@),
        Err(reason) => Err(reason@),
    }
}

/// The view of what is reported about an attempt to run the agent.
pub open spec fn outcome_view(outcome: Result<ProcessResult, String>) -> Result<
    ProcessResultView,
    Seq<char>,
> {
    match outcome {
        Ok(result) => Ok(result@),
        Err(reason) => Err(reason@),
    }
}

/// Writes the error for a missing entry script. `shown_path` is the path as
/// the user is to see it, and stands in the message unchanged.
pub fn missing_script_message(shown_path: &str) -> (message: String)
    ensures
        message@ == missing_script_text(shown_path@),
        occurs_in(message@, shown_path@),
{
    let mut message = String::from_str("[Rust] Error: Agent JavaScript entry script not found at ");
    message.append(shown_path);
    message.append(". Did you create 'run-agent.js' in the agent directory?");
    proof {
        lemma_middle_occurs(
            "[Rust] Error: Agent JavaScript entry script not found at "@,
            shown_path@,
            ". Did you create 'run-agent.js' in the agent directory?"@,
        );
    }
    message
}

/// Decides what to do once the entry script has been probed.
///
/// With the script in place, the agent is to be run: the interpreter `node`,
/// the script and the message as its arguments, the agent's root as working
/// directory. Without it, the query fails with a message that shows the
/// script's path in quotes.
pub fn plan_invocation(location: AgentLocation, message: String, script_exists: bool) -> (plan:
    Result<Invocation, String>)
    ensures
        plan_view(plan) == planned(location@, message@, script_exists),
        !script_exists ==> plan is Err && occurs_in(
            plan->Err_0@,
            quoted(location.entry_script@),
        ),
{
    if script_exists {
        Ok(
            Invocation {
                program: String::from_str("node"),
                script: location.entry_script,
                message,
                working_dir: location.root,
            },
        )
    } else {
        let shown = path_debug(location.entry_script.as_str());
        Err(missing_script_message(shown.as_str()))
    }
}

/// Turns a finished process into a reply, given its streams as text: the
/// standard output on success, the standard error behind a fixed prefix on
/// failure. The stream that is not used is dropped.
pub fn conclude(success: bool, stdout_text: String, stderr_text: String) -> (reply: Result<
    String,
    String,
>)
    ensures
        reply_text(reply) == concluded(success, stdout_text@, stderr_text@),
        success ==> reply == Ok::<String, String>(stdout_text),
        !success ==> reply is Err && occurs_in(reply->Err_0@, stderr_text@),
{
    if success {
        Ok(stdout_text)
    } else {
        let mut reason = String::from_str("[Rust] Mastra Agent failed: ");
        reason.append(stderr_text.as_str());
        proof {
            lemma_tail_occurs("[Rust] Mastra Agent failed: "@, stderr_text@);
        }
        Err(reason)
    }
}

/// Turns a finished process into a reply.
///
/// On exit status zero the reply is the standard output; where that is
/// well-formed UTF-8, the reply encodes to the very bytes that were
/// captured. On any other status the reply is an error that carries the
/// standard error.
pub fn interpret_exit(result: &ProcessResult) -> (reply: Result<String, String>)
    ensures
        reply_text(reply) == interpreted(result@),
        result.success <==> reply is Ok,
        result.success && valid_utf8(result.stdout@) ==> encode_utf8(reply->Ok_0@)
            == result.stdout@,
        !result.success ==> occurs_in(reply->Err_0@, lossy_text(result.stderr@)),
{
    let stdout_text = decode_lossy(result.stdout.as_slice());
    let stderr_text = decode_lossy(result.stderr.as_slice());
    proof {
        if valid_utf8(result.stdout@) {
            decode_utf8_encode_utf8(result.stdout@);
        }
    }
    conclude(result.success, stdout_text, stderr_text)
}

/// Turns the report on an attempt to run the agent into a reply: the
/// interpretation of its exit where it ran, and an error that carries the
/// reason where it could not be started.
pub fn settle(outcome: Result<ProcessResult, String>) -> (reply: Result<String, String>)
    ensures
        reply_text(reply) == settled(outcome_view(outcome)),
        reply is Ok <==> outcome is Ok && (outcome->Ok_0).success,
{
    match outcome {
        Ok(result) => interpret_exit(&result),
        Err(reason) => {
            let mut text = String::from_str("[Rust] Failed to execute node process: ");
            text.append(reason.as_str());
            Err(text)
        },
    }
}

} // verus!
