//! What the node does over and over while it runs.

use crate::args::StartupArgs;
use crate::startup::announces;
use vstd::prelude::*;

verus! {

/// A task that is done again and again, at fixed times.
#[derive(Clone, Copy, Debug, PartialEq, Eq, Structural)]
pub enum Task {
    /// Write the network graph to disk.
    PersistNetworkGraph,
    /// Write the scores of channels to disk.
    PersistScorer,
    /// Bring the channels in step with the chain.
    SyncChain,
    /// Announce the node to the network.
    Announce,
}

/// What the user is told of a task that failed.
#[derive(Debug)]
pub enum Report {
    Output(String),
    ErrorOutput(String),
    Nothing,
}

/// A [`Report`] with its text as a sequence.
pub ghost enum ReportView {
    Output(Seq<char>),
    ErrorOutput(Seq<char>),
    Nothing,
}

impl View for Report {
    type V = ReportView;

    open spec fn view(&self) -> ReportView {
        match *self {
            Report::Output(text) => ReportView::Output(text@),
            Report::ErrorOutput(text) => ReportView::ErrorOutput(text@),
            Report::Nothing => ReportView::Nothing,
        }
    }
}

/// The seconds from one time to the next.
pub open spec fn period(task: Task) -> u64 {
    match task {
        Task::PersistNetworkGraph => 600,
        Task::PersistScorer => 600,
        Task::SyncChain => 30,
        Task::Announce => 60,
    }
}

/// What is said of a failure. A failure of the disk is not fatal here: the graph can be fetched
/// again, and channels are scored anew. A failure to sync comes with its error.
pub open spec fn failure_report(task: Task, error: Seq<char>) -> ReportView {
    match task {
        Task::PersistNetworkGraph => ReportView::ErrorOutput(
            "Warning: Failed to persist network graph, check your disk and permissions\n"@,
        ),
        Task::PersistScorer => ReportView::ErrorOutput(
            "Warning: Failed to persist scorer, check your disk and permissions\n"@,
        ),
        Task::SyncChain => ReportView::Output("sync failed: "@ + error + "\n"@),
        Task::Announce => ReportView::Nothing,
    }
}

impl Task {
    /// The seconds from one time to the next.
    pub fn period_secs(self) -> (secs: u64)
        ensures
            secs == period(self),
    {
        match self {
            Task::PersistNetworkGraph => 600,
            Task::PersistScorer => 600,
            Task::SyncChain => 30,
            Task::Announce => 60,
        }
    }

    /// Whether a node with these arguments does the task: all of them, but it announces itself
    /// only where it has an address to announce.
    pub fn is_done_by(self, args: &StartupArgs) -> (done: bool)
        ensures
            done == (self != Task::Announce || announces(*args)),
            self == Task::Announce ==> done == (args.ldk_announced_listen_addr@.len() > 0),
            self != Task::Announce ==> done,
    {
        match self {
            Task::Announce => args.ldk_announced_listen_addr.len() > 0,
            _ => true,
        }
    }

    /// What to tell the user when the task has failed with this error.
    pub fn failed(self, error: &str) -> (report: Report)
        ensures
            report@ == failure_report(self, error@),
    {
        match self {
            Task::PersistNetworkGraph => Report::ErrorOutput(
                "Warning: Failed to persist network graph, check your disk and permissions\n".to_owned(),
            ),
            Task::PersistScorer => Report::ErrorOutput(
                "Warning: Failed to persist scorer, check your disk and permissions\n".to_owned(),
            ),
            Task::SyncChain => Report::Output(
                "sync failed: ".to_owned().concat(error).concat("\n"),
            ),
            Task::Announce => Report::Nothing,
        }
    }
}

/// A failed sync is reported on the console with its whole error. A failure to write is warned
/// of without one, and of announcements nothing is said.
pub proof fn failures_are_reported(task: Task, error: Seq<char>, report: Report)
    requires
        report@ == failure_report(task, error),
    ensures
        task == Task::SyncChain ==> {
            &&& report matches Report::Output(text)
            &&& text@.len() == error.len() + 14
            &&& text@.take(13) == "sync failed: "@
            &&& text@.subrange(13, 13 + error.len() as int) == error
            &&& text@.last() == '\n'
        },
        task == Task::PersistNetworkGraph ==> {
            &&& report matches Report::ErrorOutput(text)
            &&& text@
                == "Warning: Failed to persist network graph, check your disk and permissions\n"@
        },
        task == Task::PersistScorer ==> {
            &&& report matches Report::ErrorOutput(text)
            &&& text@ == "Warning: Failed to persist scorer, check your disk and permissions\n"@
        },
        task == Task::Announce ==> report is Nothing,
{
    reveal_strlit("sync failed: ");
    reveal_strlit("\n");
}

/// The channels are brought in step with the chain twice a minute, the node announces itself
/// every minute, and every ten minutes the graph and the scores are written.
pub proof fn tasks_come_in_step()
    ensures
        2 * period(Task::SyncChain) == 60,
        period(Task::Announce) == 60,
        period(Task::PersistNetworkGraph) == 10 * 60,
        period(Task::PersistScorer) == 10 * 60,
{
}

} // verus!
