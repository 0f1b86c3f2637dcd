//! Chain-style composition of a grounded prompt: a template with named
//! placeholders, the description of retrieved documents, and the chain that
//! puts them together.

use crate::error::QueryError;
use crate::ollama::{OllamaClient, OllamaRequest, effective, prompt_text};
use crate::rag::{MAX_CONTEXT_CHARS, truncate_text, truncated};
use crate::text::{join, joined, replace_all, replaced, views};
use crate::vector_store::{StoredCommand, StoredCommandView};
use vstd::prelude::*;
use vstd::string::*;

verus! {

/// A text with placeholders of the form `{name}`.
#[derive(Debug)]
pub struct PromptTemplate {
    pub template: String,
}

/// The placeholder for the variable `key`: the key in braces.
pub open spec fn placeholder(key: Seq<char>) -> Seq<char> {
    "{"@ + key + "}"@
}

/// `template` after the variables have been filled in, one after another:
/// each step replaces every occurrence of the variable's placeholder by its
/// value, also in text that an earlier value brought in.
pub open spec fn filled(template: Seq<char>, variables: Seq<(Seq<char>, Seq<char>)>) -> Seq<char>
    decreases variables.len(),
{
    if variables.len() == 0 {
        template
    } else {
        replaced(
            filled(template, variables.drop_last()),
            placeholder(variables.last().0),
            variables.last().1,
        )
    }
}

/// The keys and values of `variables` as mathematical values.
pub open spec fn variable_views(variables: Seq<(&str, &str)>) -> Seq<(Seq<char>, Seq<char>)> {
    variables.map_values(|v: (&str, &str)| (v.0@, v.1@))
}

impl PromptTemplate {
    pub fn new(template: String) -> (prompt_template: Self)
        ensures
            prompt_template.template == template,
    {
        PromptTemplate { template }
    }

    /// Fills in the variables, in the order given.
    pub fn format(&self, variables: &[(&str, &str)]) -> (text: String)
        ensures
            text@ == filled(self.template@, variable_views(variables@)),
    {
        let mut text = self.template.clone();
        let mut i: usize = 0;
        while i < variables.len()
            invariant
                i <= variables.len(),
                text@ == filled(self.template@, variable_views(variables@).take(i as int)),
            decreases variables.len() - i,
        {
            let (key, value) = variables[i];
            let mut name = String::from_str("{");
            name.append(key);
            name.append("}");
            proof {
                let all = variable_views(variables@);
                assert(all.take(i as int + 1).drop_last() =~= all.take(i as int));
            }
            text = replace_all(text.as_str(), name.as_str(), value);
            i = i + 1;
        }
        proof {
            assert(variable_views(variables@).take(variables.len() as int) =~= variable_views(
                variables@,
            ));
        }
        text
    }
}

/// A source of documents for a query. An implementation returns at most
/// `top_k` documents, most relevant first. The bound is what implementations
/// owe; this library holds none, so nothing in it rests on the bound.
pub trait Retriever {
    fn retrieve(&self, query: &str, top_k: usize) -> (result: Result<Vec<String>, QueryError>)
        ensures
            result matches Ok(documents) ==> documents@.len() <= top_k,
    ;
}

/// The description of one retrieved document.
pub open spec fn document_text(command: StoredCommandView) -> Seq<char> {
    "Tool: "@ + command.command_name + "\nDescription: "@ + truncated(
        command.man_content,
        MAX_CONTEXT_CHARS as nat,
    ) + "\n"@
}

/// The template of the chain's prompt.
pub open spec fn rag_template_text() -> Seq<char> {
    "You are a helpful assistant that recommends command-line tools based on user needs.\n\nAvailable tools:\n{packages}\n\nRelevant documentation:\n{context}\n\nUser query: {query}\n\nPlease recommend the most suitable tool(s) and provide:\n1. The tool name\n2. A brief description\n3. A practical usage example\n4. The specific use case scenario\n\nFormat your response clearly and concisely."@
}

/// The context of the chain: the descriptions with a rule between them.
pub open spec fn chain_context(documents: Seq<Seq<char>>) -> Seq<char> {
    joined(documents, "\n---\n"@)
}

/// Describes the documents a search found, one text per document: the
/// command name and the text cut to `MAX_CONTEXT_CHARS` characters.
pub fn describe_documents(found: &[StoredCommand]) -> (documents: Vec<String>)
    ensures
        documents@.len() == found@.len(),
        forall|i: int|
            0 <= i < found@.len() ==> (#[trigger] documents@[i])@ == document_text(found@[i]@),
{
    let mut documents: Vec<String> = Vec::new();
    let mut i: usize = 0;
    while i < found.len()
        invariant
            i <= found.len(),
            documents@.len() == i,
            forall|j: int| 0 <= j < i ==> (#[trigger] documents@[j])@ == document_text(found@[j]@),
        decreases found.len() - i,
    {
        let command = &found[i];
        let short = truncate_text(command.man_content.as_str(), MAX_CONTEXT_CHARS);
        let mut text = String::from_str("Tool: ");
        text.append(command.command_name.as_str());
        text.append("\nDescription: ");
        text.append(short.as_str());
        text.append("\n");
        documents.push(text);
        i = i + 1;
    }
    documents
}

/// The steps from retrieved documents to the request for an answer.
#[derive(Debug)]
pub struct RagChain {
    pub prompt_template: PromptTemplate,
}

impl RagChain {
    pub fn new() -> (chain: Self)
        ensures
            chain.prompt_template.template@ == rag_template_text(),
    {
        RagChain { prompt_template: Self::create_rag_template() }
    }

    /// The template of the chain's prompt, with the placeholders
    /// `{packages}`, `{context}` and `{query}`.
    pub fn create_rag_template() -> (prompt_template: PromptTemplate)
        ensures
            prompt_template.template@ == rag_template_text(),
    {
        PromptTemplate::new(
            String::from_str(
                "You are a helpful assistant that recommends command-line tools based on user needs.\n\nAvailable tools:\n{packages}\n\nRelevant documentation:\n{context}\n\nUser query: {query}\n\nPlease recommend the most suitable tool(s) and provide:\n1. The tool name\n2. A brief description\n3. A practical usage example\n4. The specific use case scenario\n\nFormat your response clearly and concisely.",
            ),
        )
    }

    /// The chain's template filled in with the tools, the context made of
    /// `documents`, and the query, in this order.
    pub fn format_prompt(
        &self,
        user_query: &str,
        packages: &[String],
        documents: &[String],
    ) -> (prompt: String)
        ensures
            prompt@ == filled(
                self.prompt_template.template@,
                seq![
                    ("packages"@, joined(views(packages@), ", "@)),
                    ("context"@, chain_context(views(documents@))),
                    ("query"@, user_query@),
                ],
            ),
    {
        let context = join(documents, "\n---\n");
        let tools = join(packages, ", ");
        let mut variables: Vec<(&str, &str)> = Vec::new();
        variables.push(("packages", tools.as_str()));
        variables.push(("context", context.as_str()));
        variables.push(("query", user_query));
        proof {
            assert(variable_views(variables@) =~= seq![
                ("packages"@, joined(views(packages@), ", "@)),
                ("context"@, chain_context(views(documents@))),
                ("query"@, user_query@),
            ]);
        }
        self.prompt_template.format(variables.as_slice())
    }

    /// The request for an answer that is grounded in `documents`.
    pub fn run(
        &self,
        client: &OllamaClient,
        user_query: &str,
        packages: &[String],
        documents: &[String],
    ) -> (request: OllamaRequest)
        ensures
            request.model@ == client.model@,
            request.prompt@ == prompt_text(
                user_query@,
                views(packages@),
                Some(chain_context(views(documents@))),
            ),
            !request.stream,
            request.options matches Some(o) && o@ == effective(client.options_view()),
    {
        let context = join(documents, "\n---\n");
        client.query(user_query, packages, Some(context.as_str()))
    }

    /// The request for an answer without retrieved documents.
    pub fn run_without_retrieval(
        &self,
        client: &OllamaClient,
        user_query: &str,
        packages: &[String],
    ) -> (request: OllamaRequest)
        ensures
            request.model@ == client.model@,
            request.prompt@ == prompt_text(user_query@, views(packages@), None),
            !request.stream,
            request.options matches Some(o) && o@ == effective(client.options_view()),
    {
        client.query(user_query, packages, None)
    }
}

} // verus!
