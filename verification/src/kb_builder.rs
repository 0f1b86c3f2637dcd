//! The knowledge-base build as a plan: which request comes next, given what
//! came back from the last one. The caller performs each action (embedding
//! calls, store writes, status messages, pauses) and reports its outcome; the
//! plan never blocks and never touches the store itself.

use crate::error::{BuildCause, BuildError, StorageError};
use crate::text::{decimal, push_decimal};
use vstd::prelude::*;
use vstd::string::*;

verus! {

/// Documents embedded per batch request.
pub const BATCH_SIZE: usize = 10;

/// Pause after each batch, in milliseconds, so that the inference server and
/// the foreground are not starved.
pub const BATCH_PAUSE_MS: u64 = 50;

/// The two process-wide flags the query path reads before each query.
#[derive(Clone, Copy, PartialEq, Eq, Structural, Debug)]
pub struct KbFlags {
    /// The store is known to hold a complete index.
    pub ready: bool,
    /// A build is running.
    pub rebuilding: bool,
}

impl KbFlags {
    /// Retrieval is attempted only with a complete index and no build running.
    pub open spec fn allows_retrieval(&self) -> bool {
        self.ready && !self.rebuilding
    }

    /// The flags at process start: ready exactly if an earlier run left
    /// documents in the store.
    pub fn at_startup(store_has_data: bool) -> (flags: Self)
        ensures
            flags == (KbFlags { ready: store_has_data, rebuilding: false }),
    {
        KbFlags { ready: store_has_data, rebuilding: false }
    }

    #[verifier::when_used_as_spec(allows_retrieval)]
    pub fn retrieval_allowed(&self) -> (allowed: bool)
        ensures
            allowed == self.allows_retrieval(),
    {
        self.ready && !self.rebuilding
    }

    /// The flags once a build or a rebuild has started.
    pub open spec fn started() -> KbFlags {
        KbFlags { ready: false, rebuilding: true }
    }

    /// The flags once a build has completed.
    pub open spec fn completed() -> KbFlags {
        KbFlags { ready: true, rebuilding: false }
    }

    /// The flags once a build was given up: no build runs, and the index is
    /// as ready as `ready_before` says.
    pub open spec fn abandoned(ready_before: bool) -> KbFlags {
        KbFlags { ready: ready_before, rebuilding: false }
    }

    pub fn build_started(self) -> (flags: Self)
        ensures
            flags == Self::started(),
    {
        KbFlags { ready: false, rebuilding: true }
    }

    pub fn build_completed(self) -> (flags: Self)
        ensures
            flags == Self::completed(),
    {
        KbFlags { ready: true, rebuilding: false }
    }
}

/// What the caller has to do next.
#[derive(Clone, Copy, PartialEq, Eq, Structural, Debug)]
pub enum BuildAction {
    /// Delete all rows of the store in one transaction.
    ClearStore,
    /// Request embeddings for documents `start..end` in one batch call.
    EmbedBatch { start: usize, end: usize },
    /// Store documents `start..start + count` with the embeddings that came
    /// back, in order; a document that cannot be stored is reported and
    /// skipped.
    StoreBatch { start: usize, end: usize, count: usize },
    /// Request the embedding of document `index` alone and store it; a
    /// failure of either is reported and skipped.
    EmbedSingle { start: usize, index: usize, end: usize },
    /// Tell the status sink that `done` documents have been worked through,
    /// then pause for `BATCH_PAUSE_MS`.
    ReportProgress { done: usize },
    /// Ask the store how many documents it holds.
    CountStored,
    /// Tell the status sink that the build is complete with `indexed`
    /// documents. Nothing follows.
    Finish { indexed: usize },
    /// The build failed. Nothing follows.
    Abort(BuildError),
}

/// What came back from the action that was pending.
#[derive(Clone, Copy, PartialEq, Eq, Structural, Debug)]
pub enum BuildEvent {
    Cleared,
    ClearFailed(StorageError),
    /// The batch call returned `count` embeddings.
    BatchEmbedded { count: usize },
    /// The batch call failed, retries included.
    BatchFailed,
    /// The store attempts of the batch are over.
    Stored,
    /// The single embedding was stored.
    SingleDone,
    /// The single embedding or its store attempt failed; the failure was
    /// reported and the document is skipped.
    SingleFailed(BuildCause),
    /// The progress message was sent and the pause is over.
    Paused,
    Counted { indexed: usize },
    CountFailed(StorageError),
}

/// A build in progress.
#[derive(Clone, Copy, Debug)]
pub struct KbBuild {
    /// Number of documents to index.
    pub total: usize,
    /// The store is cleared before indexing.
    pub rebuild: bool,
    /// Whether the index was ready before this build started.
    pub ready_before: bool,
    /// The flags as this build wants them published.
    pub flags: KbFlags,
    /// The action the caller is performing.
    pub pending: BuildAction,
}

/// The end of the batch that starts at `start`.
pub open spec fn batch_end(start: int, total: int) -> int {
    if start + BATCH_SIZE < total {
        start + BATCH_SIZE
    } else {
        total
    }
}

/// The action that opens the indexing of `total` documents: the first batch,
/// or the final count when there is nothing to index.
pub open spec fn first_work(total: usize) -> BuildAction {
    if total == 0 {
        BuildAction::CountStored
    } else {
        BuildAction::EmbedBatch { start: 0, end: batch_end(0, total as int) as usize }
    }
}

/// The action that follows the progress report at `done` documents.
pub open spec fn work_after(done: usize, total: usize) -> BuildAction {
    if done < total {
        BuildAction::EmbedBatch { start: done, end: batch_end(done as int, total as int) as usize }
    } else {
        BuildAction::CountStored
    }
}

/// The action that follows the single request for document `index` of the
/// batch `start..end`, whether the request worked or not: the next document
/// of the batch, or the progress report when the batch is through.
pub open spec fn next_single(start: usize, index: usize, end: usize) -> BuildAction {
    if index + 1 < end {
        BuildAction::EmbedSingle { start, index: (index + 1) as usize, end }
    } else {
        BuildAction::ReportProgress { done: end }
    }
}

impl BuildAction {
    /// No action follows this one.
    pub open spec fn is_final(self) -> bool {
        self is Finish || self is Abort
    }

    /// `event` is an outcome of this action.
    pub open spec fn answered_by(self, event: BuildEvent) -> bool {
        match self {
            BuildAction::ClearStore => event is Cleared || event is ClearFailed,
            BuildAction::EmbedBatch { .. } => event is BatchEmbedded || event is BatchFailed,
            BuildAction::StoreBatch { .. } => event is Stored,
            BuildAction::EmbedSingle { .. } => event is SingleDone || event is SingleFailed,
            BuildAction::ReportProgress { .. } => event is Paused,
            BuildAction::CountStored => event is Counted || event is CountFailed,
            BuildAction::Finish { .. } => false,
            BuildAction::Abort(_) => false,
        }
    }
}

/// The progress line after `done` of `total` documents.
pub open spec fn progress_text(done: nat, total: nat, rebuild: bool) -> Seq<char> {
    if rebuild {
        "Rebuilding: "@ + decimal(done) + "/"@ + decimal(total) + " commands"@
    } else {
        "Indexed "@ + decimal(done) + "/"@ + decimal(total) + " commands"@
    }
}

/// The closing line of a build that left `indexed` documents in the store.
pub open spec fn finished_text(indexed: nat, rebuild: bool) -> Seq<char> {
    if rebuild {
        "Knowledge base rebuilt! "@ + decimal(indexed) + " commands indexed."@
    } else {
        "Knowledge base built: "@ + decimal(indexed) + " commands indexed."@
    }
}

/// The line for a build that was given up because of `error`.
pub open spec fn aborted_text(error: Seq<char>, rebuild: bool) -> Seq<char> {
    if rebuild {
        "Error rebuilding: "@ + error
    } else {
        "Background KB build failed: "@ + error
    }
}

/// The line for a batch call that failed for documents `start..end`.
pub open spec fn batch_failure_text(start: nat, end: nat, error: Seq<char>) -> Seq<char> {
    "Batch embedding failed (docs "@ + decimal(start) + "-"@ + decimal(end) + "): "@ + error
}

/// The line for a document that could not be stored.
pub open spec fn store_failure_text(command_name: Seq<char>, error: Seq<char>) -> Seq<char> {
    "Failed to store: "@ + command_name + ": "@ + error
}

/// The line for a document that could not be embedded.
pub open spec fn embed_failure_text(command_name: Seq<char>, error: Seq<char>) -> Seq<char> {
    "Failed to embed: "@ + command_name + ": "@ + error
}

pub fn progress_message(done: usize, total: usize, rebuild: bool) -> (s: String)
    ensures
        s@ == progress_text(done as nat, total as nat, rebuild),
{
    let mut s = if rebuild {
        String::from_str("Rebuilding: ")
    } else {
        String::from_str("Indexed ")
    };
    push_decimal(&mut s, done as u64);
    s.append("/");
    push_decimal(&mut s, total as u64);
    s.append(" commands");
    s
}

pub fn finished_message(indexed: usize, rebuild: bool) -> (s: String)
    ensures
        s@ == finished_text(indexed as nat, rebuild),
{
    let mut s = if rebuild {
        String::from_str("Knowledge base rebuilt! ")
    } else {
        String::from_str("Knowledge base built: ")
    };
    push_decimal(&mut s, indexed as u64);
    s.append(" commands indexed.");
    s
}

pub fn aborted_message(error: &str, rebuild: bool) -> (s: String)
    ensures
        s@ == aborted_text(error@, rebuild),
{
    let mut s = if rebuild {
        String::from_str("Error rebuilding: ")
    } else {
        String::from_str("Background KB build failed: ")
    };
    s.append(error);
    s
}

pub fn batch_failure_message(start: usize, end: usize, error: &str) -> (s: String)
    ensures
        s@ == batch_failure_text(start as nat, end as nat, error@),
{
    let mut s = String::from_str("Batch embedding failed (docs ");
    push_decimal(&mut s, start as u64);
    s.append("-");
    push_decimal(&mut s, end as u64);
    s.append("): ");
    s.append(error);
    s
}

pub fn store_failure_message(command_name: &str, error: &str) -> (s: String)
    ensures
        s@ == store_failure_text(command_name@, error@),
{
    let mut s = String::from_str("Failed to store: ");
    s.append(command_name);
    s.append(": ");
    s.append(error);
    s
}

pub fn embed_failure_message(command_name: &str, error: &str) -> (s: String)
    ensures
        s@ == embed_failure_text(command_name@, error@),
{
    let mut s = String::from_str("Failed to embed: ");
    s.append(command_name);
    s.append(": ");
    s.append(error);
    s
}

/// The line for the document `command_name` that was skipped because of
/// `cause`: a store failure or an embedding failure.
pub open spec fn document_failure_text(command_name: Seq<char>, cause: BuildCause) -> Seq<char> {
    match cause {
        BuildCause::Storage(e) => store_failure_text(command_name, e.spec_message()),
        BuildCause::Inference(e) => embed_failure_text(command_name, e.spec_message()),
    }
}

/// The line for a document that was skipped. `error.document` says which.
pub fn document_failure_message(command_name: &str, error: BuildError) -> (s: String)
    ensures
        s@ == document_failure_text(command_name@, error.cause),
{
    match error.cause {
        BuildCause::Storage(e) => {
            let text = e.message();
            store_failure_message(command_name, text.as_str())
        },
        BuildCause::Inference(e) => {
            let text = e.message();
            embed_failure_message(command_name, text.as_str())
        },
    }
}

impl KbBuild {
    /// The batch bounds in the pending action are those of the plan, and the
    /// flags say that a build is running exactly while one is.
    pub open spec fn wf(self) -> bool {
        &&& match self.pending {
            BuildAction::ClearStore => self.rebuild,
            BuildAction::EmbedBatch { start, end } => {
                &&& start < end <= self.total
                &&& start % BATCH_SIZE == 0
                &&& end == batch_end(start as int, self.total as int)
            },
            BuildAction::StoreBatch { start, end, count } => {
                &&& start < end <= self.total
                &&& start % BATCH_SIZE == 0
                &&& end == batch_end(start as int, self.total as int)
                &&& count <= end - start
            },
            BuildAction::EmbedSingle { start, index, end } => {
                &&& start <= index < end <= self.total
                &&& start % BATCH_SIZE == 0
                &&& end == batch_end(start as int, self.total as int)
            },
            BuildAction::ReportProgress { done } => {
                &&& 0 < done <= self.total
                &&& (done % BATCH_SIZE == 0 || done == self.total)
            },
            BuildAction::CountStored => true,
            BuildAction::Finish { .. } => true,
            BuildAction::Abort(_) => true,
        }
        &&& match self.pending {
            BuildAction::Finish { .. } => self.flags == KbFlags::completed(),
            BuildAction::Abort(_) => !self.flags.rebuilding && (self.flags.ready
                ==> self.ready_before),
            _ => self.flags == KbFlags::started(),
        }
    }

    /// The action that follows the pending one when `event` comes back. An
    /// event that is no outcome of the pending action changes nothing.
    pub open spec fn next_action(self, event: BuildEvent) -> BuildAction {
        match (self.pending, event) {
            (BuildAction::ClearStore, BuildEvent::Cleared) => first_work(self.total),
            (BuildAction::ClearStore, BuildEvent::ClearFailed(e)) => BuildAction::Abort(
                BuildError { cause: BuildCause::Storage(e), document: None },
            ),
            (BuildAction::EmbedBatch { start, end }, BuildEvent::BatchEmbedded { count }) => {
                BuildAction::StoreBatch {
                    start,
                    end,
                    count: if count < end - start {
                        count
                    } else {
                        (end - start) as usize
                    },
                }
            },
            (
                BuildAction::EmbedBatch { start, end },
                BuildEvent::BatchFailed,
            ) => BuildAction::EmbedSingle { start, index: start, end },
            (
                BuildAction::StoreBatch { start, end, count },
                BuildEvent::Stored,
            ) => BuildAction::ReportProgress { done: end },
            (BuildAction::EmbedSingle { start, index, end }, BuildEvent::SingleDone) => {
                next_single(start, index, end)
            },
            (BuildAction::EmbedSingle { start, index, end }, BuildEvent::SingleFailed(_)) => {
                next_single(start, index, end)
            },
            (BuildAction::ReportProgress { done }, BuildEvent::Paused) => work_after(
                done,
                self.total,
            ),
            (BuildAction::CountStored, BuildEvent::Counted { indexed }) => BuildAction::Finish {
                indexed,
            },
            (BuildAction::CountStored, BuildEvent::CountFailed(e)) => BuildAction::Abort(
                BuildError { cause: BuildCause::Storage(e), document: None },
            ),
            _ => self.pending,
        }
    }

    /// The flags that go with `action`. A build that fails while clearing
    /// leaves the store as it was, so the index is as ready as before; one
    /// that fails later leaves it not ready.
    pub open spec fn flags_for(self, action: BuildAction) -> KbFlags {
        match action {
            BuildAction::Finish { .. } => KbFlags::completed(),
            BuildAction::Abort(_) => KbFlags::abandoned(
                self.ready_before && self.pending is ClearStore,
            ),
            _ => KbFlags::started(),
        }
    }

    /// The build after `event`.
    pub open spec fn next(self, event: BuildEvent) -> KbBuild {
        if self.pending.answered_by(event) {
            KbBuild {
                pending: self.next_action(event),
                flags: self.flags_for(self.next_action(event)),
                ..self
            }
        } else {
            self
        }
    }

    /// An upper bound on the number of outcomes this build still takes
    /// before it ends.
    pub open spec fn remaining(self) -> nat {
        match self.pending {
            BuildAction::ClearStore => (3 * self.total + 4) as nat,
            BuildAction::EmbedBatch { start, end } => (3 * (self.total - start) + 2) as nat,
            BuildAction::StoreBatch { start, end, count } => (3 * (self.total - end) + 4) as nat,
            BuildAction::EmbedSingle { start, index, end } => (3 * (self.total - end) + 3 + (end
                - index)) as nat,
            BuildAction::ReportProgress { done } => (3 * (self.total - done) + 3) as nat,
            BuildAction::CountStored => 1,
            BuildAction::Finish { .. } => 0,
            BuildAction::Abort(_) => 0,
        }
    }

    fn end_of_batch(start: usize, total: usize) -> (end: usize)
        requires
            start <= total,
        ensures
            end == batch_end(start as int, total as int),
    {
        if total - start > BATCH_SIZE {
            start + BATCH_SIZE
        } else {
            total
        }
    }

    fn after_single(start: usize, index: usize, end: usize) -> (action: BuildAction)
        requires
            index < end,
        ensures
            action == next_single(start, index, end),
    {
        if index + 1 < end {
            BuildAction::EmbedSingle { start, index: index + 1, end }
        } else {
            BuildAction::ReportProgress { done: end }
        }
    }

    fn first(total: usize) -> (action: BuildAction)
        ensures
            action == first_work(total),
    {
        if total == 0 {
            BuildAction::CountStored
        } else {
            BuildAction::EmbedBatch { start: 0, end: Self::end_of_batch(0, total) }
        }
    }

    /// Tests well-formedness. A build that `build_kb` opened and only `step`
    /// changed is well formed.
    pub fn is_well_formed(&self) -> (ok: bool)
        ensures
            ok == self.wf(),
    {
        let total = self.total;
        let bounds = match self.pending {
            BuildAction::ClearStore => self.rebuild,
            BuildAction::EmbedBatch { start, end } => {
                start < end && end <= total && start % BATCH_SIZE == 0 && end == Self::end_of_batch(
                    start,
                    total,
                )
            },
            BuildAction::StoreBatch { start, end, count } => {
                start < end && end <= total && start % BATCH_SIZE == 0 && end == Self::end_of_batch(
                    start,
                    total,
                ) && count <= end - start
            },
            BuildAction::EmbedSingle { start, index, end } => {
                start <= index && index < end && end <= total && start % BATCH_SIZE == 0 && end
                    == Self::end_of_batch(start, total)
            },
            BuildAction::ReportProgress { done } => {
                0 < done && done <= total && (done % BATCH_SIZE == 0 || done == total)
            },
            BuildAction::CountStored => true,
            BuildAction::Finish { .. } => true,
            BuildAction::Abort(_) => true,
        };
        let flags = match self.pending {
            BuildAction::Finish { .. } => self.flags.ready && !self.flags.rebuilding,
            BuildAction::Abort(_) => !self.flags.rebuilding && (!self.flags.ready
                || self.ready_before),
            _ => !self.flags.ready && self.flags.rebuilding,
        };
        bounds && flags
    }

    /// The build has ended, in `Finish` or in `Abort`.
    pub fn is_finished(&self) -> (finished: bool)
        ensures
            finished == self.pending.is_final(),
    {
        match self.pending {
            BuildAction::Finish { .. } => true,
            BuildAction::Abort(_) => true,
            _ => false,
        }
    }

    /// Takes the outcome of the pending action and returns the action that
    /// follows. An event that is no outcome of the pending action is
    /// ignored: the pending action is returned again.
    pub fn step(&mut self, event: BuildEvent) -> (action: BuildAction)
        requires
            old(self).wf(),
        ensures
            *final(self) == old(self).next(event),
            action == final(self).pending,
            final(self).wf(),
    {
        let total = self.total;
        let action = match (self.pending, event) {
            (BuildAction::ClearStore, BuildEvent::Cleared) => Self::first(total),
            (BuildAction::ClearStore, BuildEvent::ClearFailed(e)) => BuildAction::Abort(
                BuildError { cause: BuildCause::Storage(e), document: None },
            ),
            (BuildAction::EmbedBatch { start, end }, BuildEvent::BatchEmbedded { count }) => {
                let stored = if count < end - start {
                    count
                } else {
                    end - start
                };
                BuildAction::StoreBatch { start, end, count: stored }
            },
            (
                BuildAction::EmbedBatch { start, end },
                BuildEvent::BatchFailed,
            ) => BuildAction::EmbedSingle { start, index: start, end },
            (
                BuildAction::StoreBatch { start, end, count },
                BuildEvent::Stored,
            ) => BuildAction::ReportProgress { done: end },
            (BuildAction::EmbedSingle { start, index, end }, BuildEvent::SingleDone) => {
                Self::after_single(start, index, end)
            },
            (BuildAction::EmbedSingle { start, index, end }, BuildEvent::SingleFailed(_)) => {
                Self::after_single(start, index, end)
            },
            (BuildAction::ReportProgress { done }, BuildEvent::Paused) => {
                if done < total {
                    BuildAction::EmbedBatch { start: done, end: Self::end_of_batch(done, total) }
                } else {
                    BuildAction::CountStored
                }
            },
            (BuildAction::CountStored, BuildEvent::Counted { indexed }) => BuildAction::Finish {
                indexed,
            },
            (BuildAction::CountStored, BuildEvent::CountFailed(e)) => BuildAction::Abort(
                BuildError { cause: BuildCause::Storage(e), document: None },
            ),
            (pending, _) => pending,
        };
        let clearing = match self.pending {
            BuildAction::ClearStore => true,
            _ => false,
        };
        let answered = match (self.pending, event) {
            (BuildAction::ClearStore, BuildEvent::Cleared) => true,
            (BuildAction::ClearStore, BuildEvent::ClearFailed(_)) => true,
            (BuildAction::EmbedBatch { .. }, BuildEvent::BatchEmbedded { .. }) => true,
            (BuildAction::EmbedBatch { .. }, BuildEvent::BatchFailed) => true,
            (BuildAction::StoreBatch { .. }, BuildEvent::Stored) => true,
            (BuildAction::EmbedSingle { .. }, BuildEvent::SingleDone) => true,
            (BuildAction::EmbedSingle { .. }, BuildEvent::SingleFailed(_)) => true,
            (BuildAction::ReportProgress { .. }, BuildEvent::Paused) => true,
            (BuildAction::CountStored, BuildEvent::Counted { .. }) => true,
            (BuildAction::CountStored, BuildEvent::CountFailed(_)) => true,
            _ => false,
        };
        if answered {
            self.flags = match action {
                BuildAction::Finish { .. } => KbFlags { ready: true, rebuilding: false },
                BuildAction::Abort(_) => KbFlags {
                    ready: self.ready_before && clearing,
                    rebuilding: false,
                },
                _ => KbFlags { ready: false, rebuilding: true },
            };
            self.pending = action;
        }
        action
    }

    /// The line the status sink gets for the pending action, if it gets one.
    pub open spec fn status_text(self) -> Option<Seq<char>> {
        match self.pending {
            BuildAction::ClearStore => Some("Rebuilding knowledge base..."@),
            BuildAction::ReportProgress { done } => Some(
                progress_text(done as nat, self.total as nat, self.rebuild),
            ),
            BuildAction::Finish { indexed } => Some(finished_text(indexed as nat, self.rebuild)),
            BuildAction::Abort(error) => Some(aborted_text(error.spec_message(), self.rebuild)),
            _ => None,
        }
    }

    pub fn status_message(&self) -> (line: Option<String>)
        ensures
            line is Some == self.status_text() is Some,
            line matches Some(s) ==> s@ == self.status_text()->0,
    {
        match self.pending {
            BuildAction::ClearStore => Some(String::from_str("Rebuilding knowledge base...")),
            BuildAction::ReportProgress { done } => Some(
                progress_message(done, self.total, self.rebuild),
            ),
            BuildAction::Finish { indexed } => Some(finished_message(indexed, self.rebuild)),
            BuildAction::Abort(error) => {
                let cause = error.message();
                Some(aborted_message(cause.as_str(), self.rebuild))
            },
            _ => None,
        }
    }

    /// The build after the events of `events`, in order.
    pub open spec fn run(self, events: Seq<BuildEvent>) -> KbBuild
        decreases events.len(),
    {
        if events.len() == 0 {
            self
        } else {
            self.run(events.drop_last()).next(events.last())
        }
    }

    /// Every event of `events` is an outcome of the action that is pending
    /// when it arrives.
    pub open spec fn responsive(self, events: Seq<BuildEvent>) -> bool {
        forall|i: int|
            0 <= i < events.len() ==> #[trigger] self.run(events.take(i)).pending.answered_by(
                events[i],
            ) || self.run(events.take(i)).pending.is_final()
    }
}

/// A build as `build_kb` opens it.
pub open spec fn opening(total: usize, rebuild: bool, flags: KbFlags) -> KbBuild {
    KbBuild {
        total,
        rebuild,
        ready_before: flags.ready,
        flags: KbFlags::started(),
        pending: if rebuild {
            BuildAction::ClearStore
        } else {
            first_work(total)
        },
    }
}

/// Plans a build of `total` documents. A rebuild clears the store first.
/// From now on the flags say "not ready, rebuilding".
pub fn build_kb(total: usize, rebuild: bool, flags: KbFlags) -> (build: KbBuild)
    ensures
        build == opening(total, rebuild, flags),
        build.wf(),
{
    let pending = if rebuild {
        BuildAction::ClearStore
    } else {
        KbBuild::first(total)
    };
    KbBuild {
        total,
        rebuild,
        ready_before: flags.ready,
        flags: flags.build_started(),
        pending,
    }
}

/// Well-formedness holds of every build that `build_kb` opens and is kept by
/// every event.
pub proof fn lemma_run_wf(build: KbBuild, events: Seq<BuildEvent>)
    requires
        build.wf(),
    ensures
        build.run(events).wf(),
        build.run(events).total == build.total,
        build.run(events).rebuild == build.rebuild,
        build.run(events).ready_before == build.ready_before,
    decreases events.len(),
{
    if events.len() > 0 {
        lemma_run_wf(build, events.drop_last());
    }
}

/// While a build runs, the flags say "not ready, rebuilding", so no query
/// uses retrieval; once it has finished they say "ready, not rebuilding";
/// once it was given up they say "not rebuilding". This holds after any
/// sequence of events, whatever the flags were before the build.
pub proof fn lemma_flags_follow_build(
    total: usize,
    rebuild: bool,
    flags: KbFlags,
    events: Seq<BuildEvent>,
)
    ensures
        ({
            let build = opening(total, rebuild, flags).run(events);
            &&& !build.pending.is_final() ==> build.flags == KbFlags::started()
                && !build.flags.allows_retrieval()
            &&& build.pending is Finish ==> build.flags == KbFlags::completed()
                && build.flags.allows_retrieval()
            &&& build.pending is Abort ==> !build.flags.rebuilding
        }),
{
    lemma_run_wf(opening(total, rebuild, flags), events);
}

/// An outcome of the pending action brings the build strictly closer to its
/// end.
pub proof fn lemma_step_progress(build: KbBuild, event: BuildEvent)
    requires
        build.wf(),
        build.pending.answered_by(event),
    ensures
        build.next(event).remaining() < build.remaining(),
{
}

/// A build whose actions are all answered ends after at most
/// `3 * total + 4` outcomes.
pub proof fn lemma_build_ends(build: KbBuild, events: Seq<BuildEvent>)
    requires
        build.wf(),
        build.responsive(events),
    ensures
        build.run(events).pending.is_final() || build.run(events).remaining() + events.len()
            <= build.remaining(),
        events.len() >= 3 * build.total + 4 ==> build.run(events).pending.is_final(),
    decreases events.len(),
{
    if events.len() > 0 {
        let prefix = events.drop_last();
        assert forall|i: int| 0 <= i < prefix.len() implies #[trigger] build.run(
            prefix.take(i),
        ).pending.answered_by(prefix[i]) || build.run(prefix.take(i)).pending.is_final() by {
            assert(prefix.take(i) == events.take(i));
        }
        lemma_build_ends(build, prefix);
        lemma_run_wf(build, prefix);
        if !build.run(prefix).pending.is_final() {
            lemma_step_progress(build.run(prefix), events.last());
        }
    }
}

/// A document that cannot be embedded or stored never ends the build: the
/// plan goes on exactly as after a document that worked.
pub proof fn lemma_document_failure_is_skipped(build: KbBuild, cause: BuildCause)
    requires
        build.wf(),
        build.pending is EmbedSingle,
    ensures
        build.next(BuildEvent::SingleFailed(cause)) == build.next(BuildEvent::SingleDone),
        !(build.next(BuildEvent::SingleFailed(cause)).pending is Abort),
{
}

/// A failed batch request never ends the build: it is followed by single
/// requests, the first for the first document of the batch.
pub proof fn lemma_batch_failure_falls_back(build: KbBuild)
    requires
        build.wf(),
        build.pending is EmbedBatch,
    ensures
        build.next(BuildEvent::BatchFailed).pending == (BuildAction::EmbedSingle {
            start: build.pending->EmbedBatch_start,
            index: build.pending->EmbedBatch_start,
            end: build.pending->EmbedBatch_end,
        }),
{
}

/// Batches follow one another without gaps: a batch request is for the
/// documents right after those reported as done, or for the first
/// documents; and the final count comes only when all documents are done.
pub proof fn lemma_batches_in_order(build: KbBuild, event: BuildEvent)
    requires
        build.wf(),
        build.next(event).pending != build.pending,
    ensures
        build.next(event).pending matches BuildAction::EmbedBatch { start, end } ==> match build
            .pending {
            BuildAction::ReportProgress { done } => start == done,
            _ => start == 0,
        },
        build.next(event).pending matches BuildAction::ReportProgress { done } ==> match build
            .pending {
            BuildAction::StoreBatch { end, .. } => done == end,
            BuildAction::EmbedSingle { index, end, .. } => done == end && index + 1 == end,
            _ => false,
        },
        build.next(event).pending is CountStored ==> match build.pending {
            BuildAction::ReportProgress { done } => done == build.total,
            _ => build.total == 0,
        },
{
}

/// Every document belongs to exactly one batch: the one that starts at the
/// multiple of the batch size at or below it.
pub proof fn lemma_every_document_in_one_batch(total: usize, index: usize)
    requires
        index < total,
    ensures
        ({
            let start = index - index % BATCH_SIZE;
            &&& start % (BATCH_SIZE as int) == 0
            &&& start <= index < batch_end(start, total as int)
            &&& forall|other: int|
                0 <= other && #[trigger] (other % (BATCH_SIZE as int)) == 0 && other <= index
                    < batch_end(other, total as int) ==> other == start
        }),
{
}

} // verus!
