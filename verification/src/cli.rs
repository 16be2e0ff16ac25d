//! The choices of the command-line front end: which provider and model to
//! use, where the API key comes from, what a line typed at the prompt means,
//! and what is printed for streamed output.

use vstd::prelude::*;
use crate::streaming::StreamEvent;
use crate::text::{concat, owned, str_eq, trim, trimmed};

verus! {

/// The model services the front end can talk to.
#[derive(Debug, Clone, Copy, PartialEq, Eq)]
pub enum ProviderName {
    Anthropic,
    OpenAI,
    Ollama,
}

/// The provider named `name`, if it names one.
pub open spec fn provider_named(name: Seq<char>) -> Option<ProviderName> {
    if name == "anthropic"@ {
        Some(ProviderName::Anthropic)
    } else if name == "openai"@ {
        Some(ProviderName::OpenAI)
    } else if name == "ollama"@ {
        Some(ProviderName::Ollama)
    } else {
        None
    }
}

/// The model a provider uses when none is given; the anthropic default is
/// the deployment's, `anthropic_default`.
pub open spec fn default_model(p: ProviderName, anthropic_default: Seq<char>) -> Seq<char> {
    match p {
        ProviderName::Anthropic => anthropic_default,
        ProviderName::OpenAI => "gpt-4o"@,
        ProviderName::Ollama => "llama3.2"@,
    }
}

/// How to set up the provider the user asked for.
#[derive(Debug)]
pub struct ProviderPlan {
    pub provider: ProviderName,
    /// Whether answers are streamed (only the anthropic service streams).
    pub streaming: bool,
    /// The model, as given or the provider's default.
    pub model_name: String,
    /// Whether the provider needs an API key.
    pub needs_key: bool,
}

/// The plan for provider `name` with the model `model`, if given, and
/// streaming if `stream`; an unknown provider is refused. `anthropic_default`
/// is the model the anthropic service uses when none is given.
pub fn plan_provider(name: &str, model: Option<String>, stream: bool, anthropic_default: &str) -> (r: Result<ProviderPlan, String>)
    ensures
        match provider_named(name@) {
            Some(p) => r matches Ok(plan) && plan.provider == p
                && plan.streaming == (p == ProviderName::Anthropic && stream)
                && plan.model_name@ == (match model {
                    Some(m) => m@,
                    None => default_model(p, anthropic_default@),
                })
                && plan.needs_key == (p != ProviderName::Ollama),
            None => r matches Err(m)
                && m@ == "Unknown provider '"@ + name@ + "'. Supported: anthropic, openai, ollama"@,
        },
{
    let p = if str_eq(name, "anthropic") {
        ProviderName::Anthropic
    } else if str_eq(name, "openai") {
        ProviderName::OpenAI
    } else if str_eq(name, "ollama") {
        ProviderName::Ollama
    } else {
        let mut m = concat("Unknown provider '", name);
        m.append("'. Supported: anthropic, openai, ollama");
        return Err(m);
    };
    let model_name = match model {
        Some(m) => m,
        None => match p {
            ProviderName::Anthropic => owned(anthropic_default),
            ProviderName::OpenAI => owned("gpt-4o"),
            ProviderName::Ollama => owned("llama3.2"),
        },
    };
    let streaming = match p {
        ProviderName::Anthropic => stream,
        _ => false,
    };
    let needs_key = match p {
        ProviderName::Ollama => false,
        _ => true,
    };
    Ok(ProviderPlan { provider: p, streaming, model_name, needs_key })
}

/// The environment variable that holds the API key of provider `provider`.
pub open spec fn key_var_of(provider: Seq<char>) -> Option<Seq<char>> {
    if provider == "anthropic"@ {
        Some("ANTHROPIC_API_KEY"@)
    } else if provider == "openai"@ {
        Some("OPENAI_API_KEY"@)
    } else {
        None
    }
}

/// The environment variable that holds the API key of provider `provider`;
/// a provider without one is an error.
pub fn api_key_env_var(provider: &str) -> (r: Result<String, String>)
    ensures
        match key_var_of(provider@) {
            Some(v) => r matches Ok(s) && s@ == v,
            None => r matches Err(m) && m@ == "No API key env var for provider '"@ + provider@ + "'"@,
        },
{
    if str_eq(provider, "anthropic") {
        Ok(owned("ANTHROPIC_API_KEY"))
    } else if str_eq(provider, "openai") {
        Ok(owned("OPENAI_API_KEY"))
    } else {
        let mut m = concat("No API key env var for provider '", provider);
        m.append("'");
        Err(m)
    }
}

/// The API key: the one given on the command line, else the value of the
/// provider's environment variable, `env_value` (its value when set).
pub fn resolve_api_key(cli_key: Option<String>, provider: &str, env_value: Option<String>) -> (r: Result<String, String>)
    ensures
        match cli_key {
            Some(k) => r matches Ok(s) && s@ == k@,
            None => match key_var_of(provider@) {
                None => r matches Err(m) && m@ == "No API key env var for provider '"@ + provider@ + "'"@,
                Some(v) => match env_value {
                    Some(e) => r matches Ok(s) && s@ == e@,
                    None => r matches Err(m)
                        && m@ == "API key not provided via --api-key and "@ + v + " is not set"@,
                },
            },
        },
{
    if let Some(k) = cli_key {
        return Ok(k);
    }
    let var = match api_key_env_var(provider) {
        Ok(v) => v,
        Err(e) => return Err(e),
    };
    match env_value {
        Some(e) => Ok(e),
        None => {
            let mut m = concat("API key not provided via --api-key and ", var.as_str());
            m.append(" is not set");
            Err(m)
        },
    }
}

/// How tool definitions are written for a provider.
#[derive(Debug, Clone, Copy, PartialEq, Eq)]
pub enum ToolFormat {
    /// `name`, `description` and `input_schema`.
    Plain,
    /// A `function` object holding `name`, `description` and `parameters`.
    Function,
}

/// The tool-definition format for provider `provider`: the function form
/// for openai and ollama, the plain form otherwise.
pub fn tool_format(provider: &str) -> (r: ToolFormat)
    ensures
        r == (if provider@ == "openai"@ || provider@ == "ollama"@ { ToolFormat::Function } else { ToolFormat::Plain }),
{
    if str_eq(provider, "openai") || str_eq(provider, "ollama") {
        ToolFormat::Function
    } else {
        ToolFormat::Plain
    }
}

/// What a line typed at the prompt asks for.
#[derive(Debug)]
pub enum ReplInput {
    /// Nothing to do: the line is blank.
    Skip,
    /// Leave the prompt.
    Exit,
    /// Send this text to the agent.
    Send(String),
}

/// What the line `line` asks for: blank lines are skipped, `exit` and `quit`
/// (around white space) leave, anything else is sent without its surrounding
/// white space.
pub fn repl_input(line: &str) -> (r: ReplInput)
    ensures
        trimmed(line@).len() == 0 ==> r is Skip,
        trimmed(line@) == "exit"@ || trimmed(line@) == "quit"@ ==> r is Exit,
        trimmed(line@).len() > 0 && trimmed(line@) != "exit"@ && trimmed(line@) != "quit"@
            ==> (r matches ReplInput::Send(s) && s@ == trimmed(line@)),
{
    proof {
        reveal_strlit("exit");
        reveal_strlit("quit");
    }
    let input = trim(line);
    if input.as_str().is_empty() {
        return ReplInput::Skip;
    }
    if str_eq(input.as_str(), "exit") || str_eq(input.as_str(), "quit") {
        return ReplInput::Exit;
    }
    ReplInput::Send(input)
}

/// The first line the prompt prints.
pub fn repl_banner(provider: &str, model: &str, streaming: bool) -> (r: String)
    ensures
        r@ == "Zero Agent (provider: "@ + provider@ + ", model: "@ + model@
            + (if streaming { ", streaming: on)"@ } else { ")"@ }),
{
    let mut r = concat("Zero Agent (provider: ", provider);
    r.append(", model: ");
    r.append(model);
    r.append(if streaming { ", streaming: on)" } else { ")" });
    r
}

/// What is printed for a streamed event: text as it comes, a line naming
/// each tool the answer calls, nothing for the rest.
pub fn stream_event_text(event: &StreamEvent) -> (r: Option<String>)
    ensures
        match event {
            StreamEvent::TextDelta(t) => r matches Some(s) && s@ == t@,
            StreamEvent::ToolUseStart { id, name } => r matches Some(s) && s@ == "\n[Tool: "@ + name@ + "]\n"@,
            _ => r is None,
        },
{
    match event {
        StreamEvent::TextDelta(t) => Some(t.clone()),
        StreamEvent::ToolUseStart { id, name } => {
            let mut s = concat("\n[Tool: ", name.as_str());
            s.append("]\n");
            Some(s)
        },
        _ => None,
    }
}

} // verus!

verus! {

/// What a tool tells about itself: its name, what it does, and the JSON
/// schema of its input, as JSON text.
#[derive(Debug)]
pub struct ToolMetadata {
    pub name: String,
    pub description: String,
    pub input_schema: String,
}

/// A tool's definition as a provider takes it: the tool's name, description
/// and input schema, laid out in the provider's format.
#[derive(Debug)]
pub struct ToolDefinition {
    pub format: ToolFormat,
    pub name: String,
    pub description: String,
    /// The input schema, as JSON text.
    pub input_schema: String,
}

/// The tool-definition format of provider `provider`.
pub open spec fn format_for(provider: Seq<char>) -> ToolFormat {
    if provider == "openai"@ || provider == "ollama"@ { ToolFormat::Function } else { ToolFormat::Plain }
}

/// Whether `d` defines the tool `m` for provider `provider`.
pub open spec fn defines(d: ToolDefinition, m: ToolMetadata, provider: Seq<char>) -> bool {
    &&& d.format == format_for(provider)
    &&& d.name@ == m.name@
    &&& d.description@ == m.description@
    &&& d.input_schema@ == m.input_schema@
}

/// The definition of the tool `meta` for provider `provider`.
pub fn tool_definition(meta: &ToolMetadata, provider: &str) -> (d: ToolDefinition)
    ensures
        defines(d, *meta, provider@),
{
    ToolDefinition {
        format: tool_format(provider),
        name: meta.name.clone(),
        description: meta.description.clone(),
        input_schema: meta.input_schema.clone(),
    }
}

/// The definitions of the tools `tools`, in order, for provider `provider`.
pub fn build_tool_definitions(tools: &Vec<ToolMetadata>, provider_name: &str) -> (r: Vec<ToolDefinition>)
    ensures
        r@.len() == tools@.len(),
        forall|i: int| 0 <= i < r@.len() ==> defines(#[trigger] r@[i], tools@[i], provider_name@),
{
    let mut r: Vec<ToolDefinition> = Vec::new();
    let mut i: usize = 0;
    while i < tools.len()
        invariant
            i <= tools@.len(),
            r@.len() == i,
            forall|k: int| 0 <= k < i ==> defines(#[trigger] r@[k], tools@[k], provider_name@),
        decreases tools@.len() - i,
    {
        r.push(tool_definition(&tools[i], provider_name));
        i = i + 1;
    }
    r
}

} // verus!
