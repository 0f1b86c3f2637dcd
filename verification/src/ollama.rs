//! The inference client's settings and the requests it sends: generation
//! options, request bodies and the recommendation prompt. Sending is the
//! caller's business; everything here is plain data.

use crate::retry::RetryPolicy;
use crate::text::{join, joined, views};
use vstd::prelude::*;
use vstd::string::*;

verus! {

/// Context-window size sent when the caller sets none.
pub const DEFAULT_NUM_CTX: u32 = 8192;

/// Embedding calls allowed in flight at once.
pub const MAX_CONCURRENT_EMBEDDINGS: usize = 2;

/// Generation options. An option that is `None` is left out of the request,
/// so that the server applies its own default. The three real-valued options
/// are held as the bits of their IEEE 754 single-precision value.
#[derive(Debug)]
pub struct OllamaOptions {
    pub num_ctx: Option<u32>,
    pub temperature_bits: Option<u32>,
    pub top_p_bits: Option<u32>,
    pub top_k: Option<i32>,
    pub repeat_penalty_bits: Option<u32>,
    pub stop: Option<Vec<String>>,
}

/// `OllamaOptions` as a mathematical value.
pub struct OllamaOptionsView {
    pub num_ctx: Option<u32>,
    pub temperature_bits: Option<u32>,
    pub top_p_bits: Option<u32>,
    pub top_k: Option<i32>,
    pub repeat_penalty_bits: Option<u32>,
    pub stop: Option<Seq<Seq<char>>>,
}

impl View for OllamaOptions {
    type V = OllamaOptionsView;

    open spec fn view(&self) -> OllamaOptionsView {
        OllamaOptionsView {
            num_ctx: self.num_ctx,
            temperature_bits: self.temperature_bits,
            top_p_bits: self.top_p_bits,
            top_k: self.top_k,
            repeat_penalty_bits: self.repeat_penalty_bits,
            stop: match self.stop {
                Some(words) => Some(views(words@)),
                None => None,
            },
        }
    }
}

/// The options used when the caller sets none: the default context window
/// and nothing else.
pub open spec fn default_options() -> OllamaOptionsView {
    OllamaOptionsView {
        num_ctx: Some(DEFAULT_NUM_CTX),
        temperature_bits: None,
        top_p_bits: None,
        top_k: None,
        repeat_penalty_bits: None,
        stop: None,
    }
}

/// The options that are sent for the configured `options`: those, or the
/// defaults, with the context window always given.
pub open spec fn effective(options: Option<OllamaOptionsView>) -> OllamaOptionsView {
    let base = match options {
        Some(o) => o,
        None => default_options(),
    };
    OllamaOptionsView {
        num_ctx: Some(
            match base.num_ctx {
                Some(n) => n,
                None => DEFAULT_NUM_CTX,
            },
        ),
        ..base
    }
}

impl Default for OllamaOptions {
    fn default() -> (options: Self)
        ensures
            options@ == default_options(),
    {
        OllamaOptions {
            num_ctx: Some(DEFAULT_NUM_CTX),
            temperature_bits: None,
            top_p_bits: None,
            top_k: None,
            repeat_penalty_bits: None,
            stop: None,
        }
    }
}

impl Clone for OllamaOptions {
    fn clone(&self) -> (copy: Self)
        ensures
            copy@ == self@,
    {
        let stop = match &self.stop {
            Some(words) => {
                let copied = words.clone();
                Some(copied)
            },
            None => None,
        };
        OllamaOptions {
            num_ctx: self.num_ctx,
            temperature_bits: self.temperature_bits,
            top_p_bits: self.top_p_bits,
            top_k: self.top_k,
            repeat_penalty_bits: self.repeat_penalty_bits,
            stop,
        }
    }
}

/// The body of a text-generation request.
#[derive(Debug)]
pub struct OllamaRequest {
    pub model: String,
    pub prompt: String,
    pub stream: bool,
    pub options: Option<OllamaOptions>,
}

/// The body of a request for one embedding.
#[derive(Debug)]
pub struct EmbedRequest {
    pub model: String,
    pub prompt: String,
    pub options: Option<OllamaOptions>,
}

/// The body of a request for the embeddings of several texts.
#[derive(Debug)]
pub struct EmbedBatchRequest {
    pub model: String,
    pub prompts: Vec<String>,
}

/// The settings of one client of the inference server.
#[derive(Debug)]
pub struct OllamaClient {
    pub base_url: String,
    pub model: String,
    pub embed_model: String,
    pub options: Option<OllamaOptions>,
    /// Attempts per embedding call.
    pub max_retries: usize,
    /// Backoff base of a single embedding call, in milliseconds.
    pub base_backoff_ms: u64,
    /// Backoff base of a batch embedding call, in milliseconds.
    pub batch_backoff_ms: u64,
    /// Pause between the single calls that stand in for a failed batch call.
    pub single_request_delay_ms: u64,
    /// Ceiling on batch embedding requests per second.
    pub requests_per_second: u32,
}

/// The opening of the prompt, up to the list of tools.
pub open spec fn prompt_head() -> Seq<char> {
    "You are a helpful assistant that recommends command-line tools based on user needs.\n\nAvailable tools installed via Homebrew:\n"@
}

/// The heading of the retrieved documentation.
pub open spec fn context_head() -> Seq<char> {
    "\n\nRelevant documentation from installed tools:\n"@
}

/// The heading of the user's query.
pub open spec fn query_head() -> Seq<char> {
    "\nUser query: "@
}

/// The fixed instructions that close the prompt.
pub open spec fn prompt_tail() -> Seq<char> {
    "\n\nPlease recommend the most suitable tool(s) from the available list and provide:\n1. The tool name\n2. A brief description of what it does\n3. A practical usage example with command-line syntax\n4. The specific use case scenario\n\nFormat your response clearly and concisely."@
}

/// The part of the prompt that carries the retrieved documentation: empty
/// when there is none.
pub open spec fn context_section(context: Option<Seq<char>>) -> Seq<char> {
    match context {
        Some(text) => if text.len() > 0 {
            context_head() + text + "\n\n"@
        } else {
            Seq::<char>::empty()
        },
        None => Seq::<char>::empty(),
    }
}

/// The recommendation prompt: the installed tools, the retrieved
/// documentation if there is any, the query, and the instructions.
pub open spec fn prompt_text(
    user_query: Seq<char>,
    packages: Seq<Seq<char>>,
    context: Option<Seq<char>>,
) -> Seq<char> {
    prompt_head() + joined(packages, ", "@) + context_section(context) + query_head() + user_query
        + prompt_tail()
}

impl OllamaClient {
    /// A client of the local server with the default embedding model and
    /// limits.
    pub fn new(model: String) -> (client: Self)
        ensures
            client.base_url@ == "http://localhost:11434"@,
            client.model == model,
            client.embed_model@ == "all-minilm"@,
            client.options is None,
            client.max_retries == 5,
            client.base_backoff_ms == 1000,
            client.batch_backoff_ms == 500,
            client.single_request_delay_ms == 500,
            client.requests_per_second == 2,
    {
        OllamaClient {
            base_url: String::from_str("http://localhost:11434"),
            model,
            embed_model: String::from_str("all-minilm"),
            options: None,
            max_retries: 5,
            base_backoff_ms: 1000,
            batch_backoff_ms: 500,
            single_request_delay_ms: 500,
            requests_per_second: 2,
        }
    }

    pub fn set_options(&mut self, options: OllamaOptions)
        ensures
            final(self).options == Some(options),
            final(self).base_url == old(self).base_url,
            final(self).model == old(self).model,
            final(self).embed_model == old(self).embed_model,
            final(self).max_retries == old(self).max_retries,
            final(self).base_backoff_ms == old(self).base_backoff_ms,
            final(self).batch_backoff_ms == old(self).batch_backoff_ms,
            final(self).single_request_delay_ms == old(self).single_request_delay_ms,
            final(self).requests_per_second == old(self).requests_per_second,
    {
        self.options = Some(options);
    }

    pub fn set_embed_model(&mut self, embed_model: String)
        ensures
            final(self).embed_model == embed_model,
            final(self).base_url == old(self).base_url,
            final(self).model == old(self).model,
            final(self).options == old(self).options,
            final(self).max_retries == old(self).max_retries,
            final(self).base_backoff_ms == old(self).base_backoff_ms,
            final(self).batch_backoff_ms == old(self).batch_backoff_ms,
            final(self).single_request_delay_ms == old(self).single_request_delay_ms,
            final(self).requests_per_second == old(self).requests_per_second,
    {
        self.embed_model = embed_model;
    }

    /// The configured options as a mathematical value.
    pub open spec fn options_view(&self) -> Option<OllamaOptionsView> {
        match self.options {
            Some(o) => Some(o@),
            None => None,
        }
    }

    /// The options that go into a request: the configured ones, or the
    /// defaults, with the context window always given.
    pub fn effective_options(&self) -> (options: OllamaOptions)
        ensures
            options@ == effective(self.options_view()),
    {
        let mut options = match &self.options {
            Some(o) => o.clone(),
            None => OllamaOptions::default(),
        };
        if options.num_ctx.is_none() {
            options.num_ctx = Some(DEFAULT_NUM_CTX);
        }
        options
    }

    /// The address of the text-generation endpoint.
    pub fn generate_url(&self) -> (url: String)
        ensures
            url@ == self.base_url@ + "/api/generate"@,
    {
        let mut url = self.base_url.clone();
        url.append("/api/generate");
        url
    }

    /// The address of the embedding endpoint.
    pub fn embeddings_url(&self) -> (url: String)
        ensures
            url@ == self.base_url@ + "/api/embeddings"@,
    {
        let mut url = self.base_url.clone();
        url.append("/api/embeddings");
        url
    }

    /// The body that asks for an answer to `prompt`, not streamed.
    pub fn build_generate_request(&self, prompt: String) -> (request: OllamaRequest)
        ensures
            request.model@ == self.model@,
            request.prompt == prompt,
            !request.stream,
            request.options matches Some(o) && o@ == effective(self.options_view()),
    {
        OllamaRequest {
            model: self.model.clone(),
            prompt,
            stream: false,
            options: Some(self.effective_options()),
        }
    }

    /// The body that asks for the embedding of `text`.
    pub fn generate_embedding(&self, text: &str) -> (request: EmbedRequest)
        ensures
            request.model@ == self.embed_model@,
            request.prompt@ == text@,
            request.options matches Some(o) && o@ == effective(self.options_view()),
    {
        EmbedRequest {
            model: self.embed_model.clone(),
            prompt: String::from_str(text),
            options: Some(self.effective_options()),
        }
    }

    /// The body that asks for the embeddings of `texts`, in order.
    pub fn generate_embeddings_batch(&self, texts: &[String]) -> (request: EmbedBatchRequest)
        ensures
            request.model@ == self.embed_model@,
            views(request.prompts@) == views(texts@),
    {
        let mut prompts: Vec<String> = Vec::new();
        let mut i: usize = 0;
        while i < texts.len()
            invariant
                i <= texts.len(),
                prompts@.len() == i,
                forall|j: int| 0 <= j < i ==> prompts@[j]@ == texts@[j]@,
            decreases texts.len() - i,
        {
            prompts.push(texts[i].clone());
            i = i + 1;
        }
        EmbedBatchRequest { model: self.embed_model.clone(), prompts }
    }

    /// The request for a recommendation: the prompt for `user_query` in a
    /// generation request.
    pub fn query(
        &self,
        user_query: &str,
        packages: &[String],
        context: Option<&str>,
    ) -> (request: OllamaRequest)
        ensures
            request.model@ == self.model@,
            request.prompt@ == prompt_text(
                user_query@,
                views(packages@),
                match context {
                    Some(text) => Some(text@),
                    None => None,
                },
            ),
            !request.stream,
            request.options matches Some(o) && o@ == effective(self.options_view()),
    {
        let prompt = self.build_prompt(user_query, packages, context);
        self.build_generate_request(prompt)
    }

    /// How a single embedding call is retried.
    pub fn retry_policy(&self) -> (policy: RetryPolicy)
        ensures
            policy == (RetryPolicy {
                max_retries: self.max_retries,
                base_backoff_ms: self.base_backoff_ms,
            }),
    {
        RetryPolicy { max_retries: self.max_retries, base_backoff_ms: self.base_backoff_ms }
    }

    /// How a batch embedding call is retried.
    pub fn batch_retry_policy(&self) -> (policy: RetryPolicy)
        ensures
            policy == (RetryPolicy {
                max_retries: self.max_retries,
                base_backoff_ms: self.batch_backoff_ms,
            }),
    {
        RetryPolicy { max_retries: self.max_retries, base_backoff_ms: self.batch_backoff_ms }
    }

    /// The recommendation prompt for `user_query`. The documentation section
    /// is present exactly if `context` holds a non-empty text.
    pub fn build_prompt(
        &self,
        user_query: &str,
        packages: &[String],
        context: Option<&str>,
    ) -> (prompt: String)
        ensures
            prompt@ == prompt_text(
                user_query@,
                views(packages@),
                match context {
                    Some(text) => Some(text@),
                    None => None,
                },
            ),
    {
        let mut prompt = String::from_str(
            "You are a helpful assistant that recommends command-line tools based on user needs.\n\nAvailable tools installed via Homebrew:\n",
        );
        let tools = join(packages, ", ");
        prompt.append(tools.as_str());
        match context {
            Some(text) => {
                if !text.is_empty() {
                    prompt.append("\n\nRelevant documentation from installed tools:\n");
                    prompt.append(text);
                    prompt.append("\n\n");
                }
            },
            None => {},
        }
        prompt.append("\nUser query: ");
        prompt.append(user_query);
        prompt.append(
            "\n\nPlease recommend the most suitable tool(s) from the available list and provide:\n1. The tool name\n2. A brief description of what it does\n3. A practical usage example with command-line syntax\n4. The specific use case scenario\n\nFormat your response clearly and concisely.",
        );
        prompt
    }
}

} // verus!
