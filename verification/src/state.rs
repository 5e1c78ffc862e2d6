//! What the daemon is built of, given its settings.

use vstd::prelude::*;

use crate::config::AuthMode;
use crate::llm::groq::GroqProvider;
use crate::llm::mock::MockProvider;
use crate::protocol::api::ModelConfig;
use crate::text;
use crate::tools::{Tool, ToolRegistry};

verus! {

/// A provider of generations.
#[derive(Debug, PartialEq)]
pub enum Provider {
    Groq(GroqProvider),
    /// Stands in where there is no key.
    Mock(MockProvider),
}

impl Provider {
    /// Whether this is the provider of a model: the real one where there is a
    /// key, and one that says it is missing where there is none.
    pub open spec fn serves(self, key: Option<Seq<char>>, model: Seq<char>) -> bool {
        match key {
            Some(k) => {
                &&& self matches Provider::Groq(p)
                &&& p.id.0@ == "groq:"@ + model
                &&& p.model@ == model
                &&& p.api_key@ == k
            },
            None => self matches Provider::Mock(p) && p.id.0@ == "groq:missing:"@ + model,
        }
    }

    /// The provider of a model.
    fn of(key: Option<&str>, model: &str) -> (r: Self)
        ensures
            r.serves(
                match key {
                    Some(k) => Some(k@),
                    None => None,
                },
                model@,
            ),
    {
        match key {
            Some(k) => Provider::Groq(GroqProvider::new(model.to_owned(), k.to_owned())),
            None => Provider::Mock(MockProvider::new(text::join2("groq:missing:", model))),
        }
    }
}

/// What turns audio into text.
#[derive(Debug, PartialEq)]
pub enum Transcriber {
    /// The provider, under a key.
    Groq(String),
    /// Stands in where there is no key.
    Mock,
}

/// The two providers of the adapter, and the transcriber.
#[derive(Debug, PartialEq)]
pub struct Providers {
    pub primary: Provider,
    pub secondary: Provider,
    pub transcriber: Transcriber,
}

/// Whether these are the providers for a key and a choice of models.
pub open spec fn builds(key: Option<Seq<char>>, models: ModelConfig, r: Providers) -> bool {
    &&& r.primary.serves(key, models.primary.model@)
    &&& r.secondary.serves(key, models.fallback.model@)
    &&& match key {
        Some(k) => r.transcriber matches Transcriber::Groq(own) && own@ == k,
        None => r.transcriber == Transcriber::Mock,
    }
}

/// The providers for a key and a choice of models. Without a key the daemon
/// runs all the same, on stand-ins.
pub fn build_providers(key: Option<&str>, models: &ModelConfig) -> (r: Providers)
    ensures
        builds(
            match key {
                Some(k) => Some(k@),
                None => None,
            },
            *models,
            r,
        ),
{
    let primary = Provider::of(key, models.primary.model.as_str());
    let secondary = Provider::of(key, models.fallback.model.as_str());
    let transcriber = match key {
        Some(k) => Transcriber::Groq(k.to_owned()),
        None => Transcriber::Mock,
    };
    Providers { primary, secondary, transcriber }
}

/// Whether the agent has a tool.
pub open spec fn offers(mode: AuthMode, tool: Tool) -> bool {
    mode == AuthMode::Local || tool != Tool::RunShell
}

/// The tools that the agent has: no shell where others share the machine.
pub fn tools_for(mode: AuthMode) -> (r: ToolRegistry)
    ensures
        forall|t: Tool|
            #![trigger r.registered().contains(t)]
            #![trigger offers(mode, t)]
            r.registered().contains(t) <==> offers(mode, t),
{
    match mode {
        AuthMode::Remote => ToolRegistry::remote(),
        AuthMode::Local => ToolRegistry::standard(),
    }
}

/// Law: with a key a model is served by its provider, under that key; without
/// one nothing but a stand-in answers, under a name that says what is missing.
pub proof fn law_stand_in_only_without_a_key(
    provider: Provider,
    key: Option<Seq<char>>,
    model: Seq<char>,
)
    requires
        provider.serves(key, model),
    ensures
        provider is Groq <==> key is Some,
        provider matches Provider::Groq(p) ==> key == Some(p.api_key@) && p.model@ == model
            && "groq:"@.is_prefix_of(p.id.0@) && model.is_suffix_of(p.id.0@),
        provider matches Provider::Mock(p) ==> "groq:missing:"@.is_prefix_of(p.id.0@)
            && model.is_suffix_of(p.id.0@),
{
    match provider {
        Provider::Groq(p) => {
            assert("groq:"@.is_prefix_of(p.id.0@));
            assert(model.is_suffix_of(p.id.0@));
        },
        Provider::Mock(p) => {
            assert("groq:missing:"@.is_prefix_of(p.id.0@));
            assert(model.is_suffix_of(p.id.0@));
        },
    }
}

/// Law: the primary serves the first model of the configuration and the
/// secondary the second; with a key all of them use it, and without one none of
/// them is real.
pub proof fn law_models_have_their_places(
    key: Option<Seq<char>>,
    models: ModelConfig,
    r: Providers,
)
    requires
        builds(key, models, r),
    ensures
        key is Some ==> (r.primary matches Provider::Groq(p) && p.model@ == models.primary.model@
            && Some(p.api_key@) == key) && (r.secondary matches Provider::Groq(p) && p.model@
            == models.fallback.model@ && Some(p.api_key@) == key) && (
        r.transcriber matches Transcriber::Groq(own) && Some(own@) == key),
        key is None ==> r.primary is Mock && r.secondary is Mock && r.transcriber is Mock,
{
}

/// Law: where others share the machine the agent has no shell; every other tool
/// it has everywhere.
pub proof fn law_no_shell_on_a_server(mode: AuthMode, tool: Tool)
    ensures
        !offers(AuthMode::Remote, Tool::RunShell),
        offers(AuthMode::Local, Tool::RunShell),
        tool != Tool::RunShell ==> offers(mode, tool),
{
}

} // verus!
