//! Retrieval engine of a recommender for command-line tools: it grounds the
//! answers of a language model in the documentation of the tools that are
//! installed.
//!
//! The library holds the rules and leaves the work on the outside world to
//! its caller. Where a task alternates between decisions and requests
//! (building the knowledge base, answering a query, retrying a call), the
//! library offers a plan: the caller performs the pending action, reports
//! what came back, and is told the next action. Every function is verified
//! against its contract; the few facts taken from the standard library and
//! from `rand` without proof are marked as assumed where they stand.
//!
//! - [`vector_store`]: stored documents and the binary form of embeddings.
//! - [`similarity`]: ranking of documents by similarity to a query.
//! - [`ollama`]: settings, options, request bodies and the prompt.
//! - [`retry`], [`rate_limit`], [`embed_batch`]: retries with backoff,
//!   pacing, and batch embedding with its fallback to single requests.
//! - [`kb_builder`]: the build of the knowledge base and the readiness flags.
//! - [`rag`], [`langchain_integration`]: the retrieval pipeline, its context
//!   and prompt templates.
//! - [`indexer`], [`brew`], [`config`], [`log`], [`app`]: documents from
//!   manual pages, the package listing, configuration, log lines, and the
//!   state of the screen.
//! - [`text`], [`error`]: text building blocks and the errors.

pub mod app;
pub mod brew;
pub mod config;
pub mod embed_batch;
pub mod error;
pub mod indexer;
pub mod kb_builder;
pub mod langchain_integration;
pub mod log;
pub mod ollama;
pub mod rag;
pub mod rate_limit;
pub mod retry;
pub mod similarity;
pub mod text;
pub mod vector_store;
