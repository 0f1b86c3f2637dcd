//! The retrieval pipeline: whether a query may use retrieval, what is asked
//! of the store and the inference server in which order, and how the
//! retrieved documents become the context of the prompt.

use crate::error::{InferenceError, QueryError, StorageError};
use crate::kb_builder::KbFlags;
use crate::ollama::{context_head, prompt_head, prompt_tail};
use crate::text::{decimal, join, joined, push_decimal, views};
use crate::vector_store::{StoredCommand, StoredCommandView, command_views};
use vstd::prelude::*;
use vstd::string::*;

verus! {

/// Characters of a document's text that go into the context.
pub const MAX_CONTEXT_CHARS: usize = 500;

/// Documents retrieved for a query from the input line.
pub const DEFAULT_TOP_K: usize = 2;

/// `text`, cut after `max_len` characters and marked with three dots when
/// it is longer than that.
pub open spec fn truncated(text: Seq<char>, max_len: nat) -> Seq<char> {
    if text.len() <= max_len {
        text
    } else {
        text.take(max_len as int) + "..."@
    }
}

/// Truncates `text` to at most `max_len` characters, marking the cut.
pub fn truncate_text(text: &str, max_len: usize) -> (short: String)
    ensures
        short@ == truncated(text@, max_len as nat),
{
    if text.unicode_len() <= max_len {
        String::from_str(text)
    } else {
        let mut short = String::from_str(text.substring_char(0, max_len));
        short.append("...");
        short
    }
}

/// The context entry of the document at position `index` of the result.
pub open spec fn context_entry(index: nat, command: StoredCommandView) -> Seq<char> {
    "--- Command "@ + decimal(index + 1) + ": "@ + command.command_name + " ---\n"@ + truncated(
        command.man_content,
        MAX_CONTEXT_CHARS as nat,
    ) + "\n\n"@
}

/// The context block: one entry per retrieved document, in order.
pub open spec fn context_block(commands: Seq<StoredCommandView>) -> Seq<char>
    decreases commands.len(),
{
    if commands.len() == 0 {
        Seq::<char>::empty()
    } else {
        context_block(commands.drop_last()) + context_entry(
            (commands.len() - 1) as nat,
            commands.last(),
        )
    }
}

/// The prompt with the documentation section always present.
pub open spec fn rag_prompt_text(
    user_query: Seq<char>,
    packages: Seq<Seq<char>>,
    context: Seq<char>,
) -> Seq<char> {
    prompt_head() + joined(packages, ", "@) + context_head() + context + "\n\nUser query: "@
        + user_query + prompt_tail()
}

/// The answer shown for a query that failed.
pub open spec fn error_text(error: QueryError) -> Seq<char> {
    "Error: "@ + error.spec_message()
}

/// The answer shown for a query that failed with `error`.
pub fn error_answer(error: QueryError) -> (answer: String)
    ensures
        answer@ == error_text(error),
{
    let mut answer = String::from_str("Error: ");
    let cause = error.message();
    answer.append(cause.as_str());
    answer
}

/// What the caller does next for a query.
#[derive(Clone, Copy, PartialEq, Eq, Structural, Debug)]
pub enum QueryAction {
    /// Open a store handle for this query and ask whether the store is
    /// empty.
    ProbeStore,
    /// Request the embedding of the query.
    EmbedQuery,
    /// Search the store for the `top_k` documents nearest to the query's
    /// embedding.
    Search { top_k: usize },
    /// Request an answer to the prompt; with `grounded`, the prompt carries
    /// the context made of the documents found.
    Generate { grounded: bool },
    /// The generated text is the answer. Nothing follows.
    Answer,
    /// The answer is the text of this error. Nothing follows.
    Fail(QueryError),
}

/// What came back from the action that was pending.
#[derive(Clone, Copy, PartialEq, Eq, Structural, Debug)]
pub enum QueryEvent {
    /// The store could not be opened.
    StoreUnavailable,
    StoreEmpty,
    StoreHasData,
    /// The store was opened but could not be asked.
    ProbeFailed(StorageError),
    Embedded,
    EmbedFailed(InferenceError),
    Retrieved,
    SearchFailed(StorageError),
    Generated,
    GenerateFailed(InferenceError),
}

/// One query on its way through the pipeline.
#[derive(Clone, Copy, PartialEq, Eq, Structural, Debug)]
pub struct RagPipeline {
    /// Number of documents to retrieve.
    pub top_k: usize,
    /// The action the caller is performing.
    pub pending: QueryAction,
}

impl QueryAction {
    /// No action follows this one.
    pub open spec fn is_final(self) -> bool {
        self is Answer || self is Fail
    }

    /// The action reads the index: it probes the store, embeds the query for
    /// a search, or searches.
    pub open spec fn uses_retrieval(self) -> bool {
        ||| self is ProbeStore
        ||| self is EmbedQuery
        ||| self is Search
        ||| self == (QueryAction::Generate { grounded: true })
    }
}

/// The first action of a query under `flags`: with retrieval allowed, the
/// store is probed; otherwise the answer is generated at once, without
/// context and without waiting for a build.
pub open spec fn opening(flags: KbFlags, top_k: usize) -> RagPipeline {
    RagPipeline {
        top_k,
        pending: if flags.allows_retrieval() {
            QueryAction::ProbeStore
        } else {
            QueryAction::Generate { grounded: false }
        },
    }
}

impl RagPipeline {
    /// The action that follows the pending one when `event` comes back. An
    /// event that is no outcome of the pending action changes nothing.
    pub open spec fn next_action(self, event: QueryEvent) -> QueryAction {
        match (self.pending, event) {
            (QueryAction::ProbeStore, QueryEvent::StoreUnavailable) => QueryAction::Generate {
                grounded: false,
            },
            (QueryAction::ProbeStore, QueryEvent::StoreEmpty) => QueryAction::Generate {
                grounded: false,
            },
            (QueryAction::ProbeStore, QueryEvent::StoreHasData) => QueryAction::EmbedQuery,
            (QueryAction::ProbeStore, QueryEvent::ProbeFailed(e)) => QueryAction::Fail(
                QueryError::Storage(e),
            ),
            (QueryAction::EmbedQuery, QueryEvent::Embedded) => QueryAction::Search {
                top_k: self.top_k,
            },
            (QueryAction::EmbedQuery, QueryEvent::EmbedFailed(e)) => QueryAction::Fail(
                QueryError::Inference(e),
            ),
            (QueryAction::Search { .. }, QueryEvent::Retrieved) => QueryAction::Generate {
                grounded: true,
            },
            (QueryAction::Search { .. }, QueryEvent::SearchFailed(e)) => QueryAction::Fail(
                QueryError::Storage(e),
            ),
            (QueryAction::Generate { .. }, QueryEvent::Generated) => QueryAction::Answer,
            (QueryAction::Generate { .. }, QueryEvent::GenerateFailed(e)) => QueryAction::Fail(
                QueryError::Inference(e),
            ),
            _ => self.pending,
        }
    }

    /// The query after `event`.
    pub open spec fn next(self, event: QueryEvent) -> RagPipeline {
        RagPipeline { top_k: self.top_k, pending: self.next_action(event) }
    }

    /// The query after the events of `events`, in order.
    pub open spec fn run(self, events: Seq<QueryEvent>) -> RagPipeline
        decreases events.len(),
    {
        if events.len() == 0 {
            self
        } else {
            self.run(events.drop_last()).next(events.last())
        }
    }

    /// Starts a query that asks for `top_k` documents, under the flags as
    /// they are read now.
    pub fn new(flags: KbFlags, top_k: usize) -> (query: Self)
        ensures
            query == opening(flags, top_k),
    {
        let pending = if flags.retrieval_allowed() {
            QueryAction::ProbeStore
        } else {
            QueryAction::Generate { grounded: false }
        };
        RagPipeline { top_k, pending }
    }

    /// The query has ended, in `Answer` or in `Fail`.
    pub fn is_finished(&self) -> (finished: bool)
        ensures
            finished == self.pending.is_final(),
    {
        match self.pending {
            QueryAction::Answer => true,
            QueryAction::Fail(_) => true,
            _ => false,
        }
    }

    /// Takes the outcome of the pending action and returns the action that
    /// follows: an empty or unreachable store leads to generation without
    /// context; a store with documents leads to embedding, search and
    /// generation with context; a failure on the way ends the query.
    pub fn query_with_rag(&mut self, event: QueryEvent) -> (action: QueryAction)
        ensures
            *final(self) == old(self).next(event),
            action == final(self).pending,
    {
        let action = match (self.pending, event) {
            (QueryAction::ProbeStore, QueryEvent::StoreUnavailable) => QueryAction::Generate {
                grounded: false,
            },
            (QueryAction::ProbeStore, QueryEvent::StoreEmpty) => QueryAction::Generate {
                grounded: false,
            },
            (QueryAction::ProbeStore, QueryEvent::StoreHasData) => QueryAction::EmbedQuery,
            (QueryAction::ProbeStore, QueryEvent::ProbeFailed(e)) => QueryAction::Fail(
                QueryError::Storage(e),
            ),
            (QueryAction::EmbedQuery, QueryEvent::Embedded) => QueryAction::Search {
                top_k: self.top_k,
            },
            (QueryAction::EmbedQuery, QueryEvent::EmbedFailed(e)) => QueryAction::Fail(
                QueryError::Inference(e),
            ),
            (QueryAction::Search { .. }, QueryEvent::Retrieved) => QueryAction::Generate {
                grounded: true,
            },
            (QueryAction::Search { .. }, QueryEvent::SearchFailed(e)) => QueryAction::Fail(
                QueryError::Storage(e),
            ),
            (QueryAction::Generate { .. }, QueryEvent::Generated) => QueryAction::Answer,
            (QueryAction::Generate { .. }, QueryEvent::GenerateFailed(e)) => QueryAction::Fail(
                QueryError::Inference(e),
            ),
            (pending, _) => pending,
        };
        self.pending = action;
        action
    }

    /// The context for the prompt, made of the documents the search found:
    /// for each a header with its position and command name, then its text
    /// cut to `MAX_CONTEXT_CHARS` characters.
    pub fn retrieve_context(&self, found: &[StoredCommand]) -> (context: String)
        ensures
            context@ == context_block(command_views(found@)),
    {
        let mut context = String::new();
        let mut i: usize = 0;
        while i < found.len()
            invariant
                i <= found.len(),
                context@ == context_block(command_views(found@).take(i as int)),
            decreases found.len() - i,
        {
            let command = &found[i];
            let short = truncate_text(command.man_content.as_str(), MAX_CONTEXT_CHARS);
            proof {
                let all = command_views(found@);
                assert(all.take(i as int + 1).drop_last() =~= all.take(i as int));
            }
            context.append("--- Command ");
            push_decimal(&mut context, i as u64 + 1);
            context.append(": ");
            context.append(command.command_name.as_str());
            context.append(" ---\n");
            context.append(short.as_str());
            context.append("\n\n");
            i = i + 1;
        }
        proof {
            assert(command_views(found@).take(found.len() as int) =~= command_views(found@));
        }
        context
    }

    /// The prompt with the documentation section always present, whatever
    /// `context` holds.
    pub fn build_rag_prompt(
        &self,
        user_query: &str,
        packages: &[String],
        context: &str,
    ) -> (prompt: String)
        ensures
            prompt@ == rag_prompt_text(user_query@, views(packages@), context@),
    {
        let mut prompt = String::from_str(
            "You are a helpful assistant that recommends command-line tools based on user needs.\n\nAvailable tools installed via Homebrew:\n",
        );
        let tools = join(packages, ", ");
        prompt.append(tools.as_str());
        prompt.append("\n\nRelevant documentation from installed tools:\n");
        prompt.append(context);
        prompt.append("\n\nUser query: ");
        prompt.append(user_query);
        prompt.append(
            "\n\nPlease recommend the most suitable tool(s) from the available list and provide:\n1. The tool name\n2. A brief description of what it does\n3. A practical usage example with command-line syntax\n4. The specific use case scenario\n\nFormat your response clearly and concisely.",
        );
        prompt
    }
}

/// A query that starts while the index is not ready, or while a build runs,
/// never probes the store, never embeds the query and never searches: it
/// goes straight to generation without context, whatever events arrive.
pub proof fn lemma_no_retrieval_unless_allowed(
    flags: KbFlags,
    top_k: usize,
    events: Seq<QueryEvent>,
)
    requires
        !flags.allows_retrieval(),
    ensures
        !opening(flags, top_k).run(events).pending.uses_retrieval(),
    decreases events.len(),
{
    if events.len() > 0 {
        lemma_no_retrieval_unless_allowed(flags, top_k, events.drop_last());
    }
}

/// A search is only ever asked for with the `top_k` the query started with.
pub proof fn lemma_search_keeps_top_k(flags: KbFlags, top_k: usize, events: Seq<QueryEvent>)
    ensures
        opening(flags, top_k).run(events).top_k == top_k,
        opening(flags, top_k).run(events).pending matches QueryAction::Search { top_k: k } ==> k
            == top_k,
    decreases events.len(),
{
    if events.len() > 0 {
        lemma_search_keeps_top_k(flags, top_k, events.drop_last());
    }
}

} // verus!
