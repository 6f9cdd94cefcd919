//! A chat query, from the user's message to the agent's reply.
//!
//! Answering a query takes three things from the outside world, in this
//! order: the directory the shell runs in, whether the agent's entry script
//! exists, and a run of the agent. A [`Query`] decides what is needed next
//! and what each answer leads to; the caller does what an [`Action`] asks
//! and reports back with an [`Event`]. A query ends with a reply, never with
//! a crash: every failure on the way is a reply that says what went wrong.

use vstd::prelude::*;
use vstd::string::*;
use crate::paths::{locate_agent, located, quoted, AgentLocation, AgentLocationView};
use crate::process::{
    agent_failure_text, lossy_text, missing_script_text, outcome_view, plan_invocation, planned,
    settle, settled, Invocation, InvocationView, ProcessResult, ProcessResultView,
};
use crate::text::{lemma_middle_occurs, lemma_tail_occurs, occurs_in, reply_text};

verus! {

/// What the caller reports back.
#[derive(Debug, PartialEq, Eq)]
pub enum Event {
    /// The directory the shell runs in, or why it could not be had.
    WorkingDir(Result<String, String>),
    /// Whether the entry script exists.
    EntryScriptProbed(bool),
    /// What the agent left behind, or why it could not be started.
    ProcessEnded(Result<ProcessResult, String>),
}

/// What the caller is asked to do.
#[derive(Debug, PartialEq, Eq)]
pub enum Action {
    /// Find the directory the shell runs in.
    LookUpWorkingDir,
    /// Find out whether this path exists.
    ProbeEntryScript(String),
    /// Run the agent and wait for it to exit.
    Run(Invocation),
    /// Hand this reply to the user. The query is over.
    Reply(Result<String, String>),
}

/// A chat query in progress.
#[derive(Debug, Clone, PartialEq, Eq)]
pub enum Query {
    /// The working directory has been asked for.
    AwaitingWorkingDir { message: String },
    /// The agent has been located; its entry script is being probed.
    AwaitingProbe { message: String, location: AgentLocation },
    /// The agent is running.
    AwaitingProcess,
    /// The reply has been given.
    Answered,
}

/// An [`Event`] over texts and byte sequences.
pub enum EventView {
    WorkingDir(Result<Seq<char>, Seq<char>>),
    EntryScriptProbed(bool),
    ProcessEnded(Result<ProcessResultView, Seq<char>>),
}

/// An [`Action`] over texts.
pub enum ActionView {
    LookUpWorkingDir,
    ProbeEntryScript(Seq<char>),
    Run(InvocationView),
    Reply(Result<Seq<char>, Seq<char>>),
}

/// A [`Query`] over texts.
pub enum QueryView {
    AwaitingWorkingDir { message: Seq<char> },
    AwaitingProbe { message: Seq<char>, location: AgentLocationView },
    AwaitingProcess,
    Answered,
}

impl View for Event {
    type V = EventView;

    open spec fn view(&self) -> EventView {
        match *self {
            Event::WorkingDir(lookup) => EventView::WorkingDir(reply_text(lookup)),
            Event::EntryScriptProbed(exists) => EventView::EntryScriptProbed(exists),
            Event::ProcessEnded(outcome) => EventView::ProcessEnded(outcome_view(outcome)),
        }
    }
}

impl View for Action {
    type V = ActionView;

    open spec fn view(&self) -> ActionView {
        match *self {
            Action::LookUpWorkingDir => ActionView::LookUpWorkingDir,
            Action::ProbeEntryScript(path) => ActionView::ProbeEntryScript(path@),
            Action::Run(invocation) => ActionView::Run(invocation@),
            Action::Reply(reply) => ActionView::Reply(reply_text(reply)),
        }
    }
}

impl View for Query {
    type V = QueryView;

    open spec fn view(&self) -> QueryView {
        match *self {
            Query::AwaitingWorkingDir { message } => QueryView::AwaitingWorkingDir {
                message: message@,
            },
            Query::AwaitingProbe { message, location } => QueryView::AwaitingProbe {
                message: message@,
                location: location@,
            },
            Query::AwaitingProcess => QueryView::AwaitingProcess,
            Query::Answered => QueryView::Answered,
        }
    }
}

/// The error for a working directory that could not be had.
pub open spec fn working_dir_failure_text(reason: Seq<char>) -> Seq<char> {
    "[Rust] Failed to get current Tauri directory: "@ + reason
}

/// A query that ends here, with this error.
pub open spec fn failed(reason: Seq<char>) -> (QueryView, ActionView) {
    (QueryView::Answered, ActionView::Reply(Err(reason)))
}

/// The query after `event`, and what it asks for next; `None` where the
/// event is not the one that the query waits for.
pub open spec fn step(query: QueryView, event: EventView) -> Option<(QueryView, ActionView)> {
    match (query, event) {
        (QueryView::AwaitingWorkingDir { message }, EventView::WorkingDir(Err(reason))) => Some(
            failed(working_dir_failure_text(reason)),
        ),
        (QueryView::AwaitingWorkingDir { message }, EventView::WorkingDir(Ok(dir))) => Some(
            match located(dir) {
                Ok(location) => (
                    QueryView::AwaitingProbe { message, location },
                    ActionView::ProbeEntryScript(location.entry_script),
                ),
                Err(reason) => failed(reason),
            },
        ),
        (
            QueryView::AwaitingProbe { message, location },
            EventView::EntryScriptProbed(exists),
        ) => Some(
            match planned(location, message, exists) {
                Ok(invocation) => (QueryView::AwaitingProcess, ActionView::Run(invocation)),
                Err(reason) => failed(reason),
            },
        ),
        (QueryView::AwaitingProcess, EventView::ProcessEnded(outcome)) => Some(
            (QueryView::Answered, ActionView::Reply(settled(outcome))),
        ),
        _ => None,
    }
}

/// Whether `event` is the one that `query` waits for.
pub open spec fn awaits(query: QueryView, event: EventView) -> bool {
    match (query, event) {
        (QueryView::AwaitingWorkingDir { .. }, EventView::WorkingDir(_)) => true,
        (QueryView::AwaitingProbe { .. }, EventView::EntryScriptProbed(_)) => true,
        (QueryView::AwaitingProcess, EventView::ProcessEnded(_)) => true,
        _ => false,
    }
}

/// The view of what [`Query::advance`] returns.
pub open spec fn step_view(next: Option<(Query, Action)>) -> Option<(QueryView, ActionView)> {
    match next {
        Some((query, action)) => Some((query@, action@)),
        None => None,
    }
}

/// How many events a query can still take.
pub open spec fn events_left(query: QueryView) -> nat {
    match query {
        QueryView::AwaitingWorkingDir { .. } => 3,
        QueryView::AwaitingProbe { .. } => 2,
        QueryView::AwaitingProcess => 1,
        QueryView::Answered => 0,
    }
}

/// How many times the agent is run while `query` is fed `events` in order.
/// An event that the query does not wait for leaves it as it is.
pub open spec fn runs_during(query: QueryView, events: Seq<EventView>) -> nat
    decreases events.len(),
{
    if events.len() == 0 {
        0
    } else {
        match step(query, events[0]) {
            Some((next, action)) => {
                let here: nat = if action is Run {
                    1
                } else {
                    0
                };
                here + runs_during(next, events.drop_first())
            },
            None => runs_during(query, events.drop_first()),
        }
    }
}

impl Query {
    /// Starts a query for `message`. The first thing it needs is the
    /// directory the shell runs in.
    pub fn begin(message: String) -> (start: (Query, Action))
        ensures
            start.0@ == (QueryView::AwaitingWorkingDir { message: message@ }),
            start.1@ == ActionView::LookUpWorkingDir,
    {
        (Query::AwaitingWorkingDir { message }, Action::LookUpWorkingDir)
    }

    /// Takes the query one step further with what the caller reports.
    ///
    /// Returns the query's next state and what it asks for, or `None` where
    /// `event` is not the one that the query waits for: a working directory
    /// at the start, then the probe of the entry script, then the end of the
    /// process, and nothing once the reply is given.
    pub fn advance(self, event: Event) -> (next: Option<(Query, Action)>)
        ensures
            step_view(next) == step(self@, event@),
            next is Some <==> awaits(self@, event@),
    {
        match self {
            Query::AwaitingWorkingDir { message } => match event {
                Event::WorkingDir(Err(reason)) => {
                    let mut text = String::from_str(
                        "[Rust] Failed to get current Tauri directory: ",
                    );
                    text.append(reason.as_str());
                    Some((Query::Answered, Action::Reply(Err(text))))
                },
                Event::WorkingDir(Ok(dir)) => match locate_agent(dir.as_str()) {
                    Ok(location) => {
                        let path = location.entry_script.clone();
                        Some(
                            (
                                Query::AwaitingProbe { message, location },
                                Action::ProbeEntryScript(path),
                            ),
                        )
                    },
                    Err(reason) => Some((Query::Answered, Action::Reply(Err(reason)))),
                },
                _ => None,
            },
            Query::AwaitingProbe { message, location } => match event {
                Event::EntryScriptProbed(exists) => match plan_invocation(
                    location,
                    message,
                    exists,
                ) {
                    Ok(invocation) => Some((Query::AwaitingProcess, Action::Run(invocation))),
                    Err(reason) => Some((Query::Answered, Action::Reply(Err(reason)))),
                },
                _ => None,
            },
            Query::AwaitingProcess => match event {
                Event::ProcessEnded(outcome) => Some(
                    (Query::Answered, Action::Reply(settle(outcome))),
                ),
                _ => None,
            },
            Query::Answered => None,
        }
    }
}

/// Every step that is taken brings the query nearer to its end; it asks for
/// a run exactly when it moves on to wait for the process, and gives a reply
/// exactly when it ends.
pub proof fn lemma_step_progress(query: QueryView, event: EventView)
    requires
        step(query, event) is Some,
    ensures
        events_left(step(query, event)->Some_0.0) < events_left(query),
        step(query, event)->Some_0.1 is Run <==> step(query, event)->Some_0.0 is AwaitingProcess,
        step(query, event)->Some_0.1 is Reply <==> step(query, event)->Some_0.0 is Answered,
        !(step(query, event)->Some_0.1 is LookUpWorkingDir),
{
}

/// A query that has given its reply takes no further event.
pub proof fn lemma_answered_is_final(event: EventView)
    ensures
        step(QueryView::Answered, event) is None,
{
}

/// Whatever events are reported, in whatever order, the agent is run at most
/// once per query, and not at all once it is running or has replied.
pub proof fn lemma_at_most_one_run(query: QueryView, events: Seq<EventView>)
    ensures
        runs_during(query, events) <= 1,
        events_left(query) <= 1 ==> runs_during(query, events) == 0,
    decreases events.len(),
{
    if events.len() > 0 {
        lemma_at_most_one_run(query, events.drop_first());
        match step(query, events[0]) {
            Some((next, action)) => {
                lemma_step_progress(query, events[0]);
                lemma_at_most_one_run(next, events.drop_first());
            },
            None => {},
        }
    }
}

/// A probe that finds no entry script ends the query with an error that
/// shows the script's path, in quotes.
pub proof fn lemma_missing_script_is_named(message: Seq<char>, location: AgentLocationView)
    ensures
        step(
            QueryView::AwaitingProbe { message, location },
            EventView::EntryScriptProbed(false),
        ) == Some(failed(missing_script_text(quoted(location.entry_script)))),
        occurs_in(missing_script_text(quoted(location.entry_script)), quoted(location.entry_script)),
{
    lemma_middle_occurs(
        "[Rust] Error: Agent JavaScript entry script not found at "@,
        quoted(location.entry_script),
        ". Did you create 'run-agent.js' in the agent directory?"@,
    );
}

/// A process that exits with status zero ends the query with its standard
/// output as the reply; one that exits with another status ends it with an
/// error that carries its standard error.
pub proof fn lemma_exit_decides_reply(result: ProcessResultView)
    ensures
        result.success ==> step(QueryView::AwaitingProcess, EventView::ProcessEnded(Ok(result)))
            == Some((QueryView::Answered, ActionView::Reply(Ok(lossy_text(result.stdout))))),
        !result.success ==> step(QueryView::AwaitingProcess, EventView::ProcessEnded(Ok(result)))
            == Some(failed(agent_failure_text(lossy_text(result.stderr)))),
        occurs_in(agent_failure_text(lossy_text(result.stderr)), lossy_text(result.stderr)),
{
    lemma_tail_occurs("[Rust] Mastra Agent failed: "@, lossy_text(result.stderr));
}

} // verus!
