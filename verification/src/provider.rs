//! The provider: the adapter with what it takes to use it.

use std::sync::Arc;

use vstd::prelude::*;

use crate::adapter::{
    AnthropicAdapter, HttpProviderExtras, DEFAULT_API_VERSION, DEFAULT_BASE_URL,
};

verus! {

/// The name of a provider.
#[derive(Clone, Debug)]
pub struct ProviderId {
    pub name: String,
}

impl ProviderId {
    pub fn new(name: &str) -> (id: ProviderId)
        ensures
            id.name@ == name@,
    {
        ProviderId { name: name.to_string() }
    }

    pub fn as_str(&self) -> (name: &str)
        ensures
            name@ == self.name@,
    {
        self.name.as_str()
    }
}

/// Where the credential comes from.
#[derive(Clone, Debug)]
pub enum Auth {
    /// There is none.
    NoAuth,
    /// This is it.
    Inline(String),
    /// The environment variable with this name holds it.
    Env(String),
}

impl Auth {
    /// A credential given as it is.
    pub fn inline(key: &str) -> (auth: Auth)
        ensures
            auth matches Auth::Inline(k) && k@ == key@,
    {
        Auth::Inline(key.to_string())
    }
}

/// What a model can take in or give out.
#[derive(Clone, Copy, Debug, PartialEq, Eq, Structural)]
pub enum Modality {
    Text,
    Image,
}

/// How structured output comes about.
#[derive(Clone, Copy, Debug, PartialEq, Eq, Structural)]
pub enum StructuredOutputMode {
    /// Not at all.
    Unsupported,
    /// The backend takes a schema.
    Native,
    /// A forced call of a tool that takes the schema.
    ToolUseEmulation,
}

/// How the prompt cache is used.
#[derive(Clone, Copy, Debug, PartialEq, Eq, Structural)]
pub enum PromptCacheKind {
    /// Not at all.
    Absent,
    /// The backend caches as it sees fit.
    Automatic,
    /// Requests mark what is to be cached.
    ExplicitMarker,
}

/// Prices in millionths of a dollar per million tokens.
#[derive(Clone, Copy, Debug, PartialEq, Eq, Structural)]
pub struct Pricing {
    pub input: u64,
    pub output: u64,
    pub cached_input: u64,
    pub cache_creation: u64,
}

impl Default for Pricing {
    /// Nothing is known of the prices.
    fn default() -> (pricing: Pricing)
        ensures
            pricing == (Pricing { input: 0, output: 0, cached_input: 0, cache_creation: 0 }),
    {
        Pricing { input: 0, output: 0, cached_input: 0, cache_creation: 0 }
    }
}

/// What a provider can do.
#[derive(Clone, Debug)]
pub struct Capabilities {
    pub max_context_tokens: u32,
    pub max_output_tokens: u32,
    pub supports_tool_use: bool,
    pub supports_parallel_tool_calls: bool,
    pub supports_structured_output: StructuredOutputMode,
    pub supports_vision: bool,
    pub supports_thinking: bool,
    pub supports_cancel: bool,
    pub prompt_cache: PromptCacheKind,
    pub streaming: bool,
    /// No modality stands in it twice.
    pub modalities_in: Vec<Modality>,
    /// No modality stands in it twice.
    pub modalities_out: Vec<Modality>,
    pub pricing: Pricing,
}

impl Capabilities {
    /// Whether no modality is listed twice.
    pub open spec fn well_formed(self) -> bool {
        self.modalities_in@.no_duplicates() && self.modalities_out@.no_duplicates()
    }

    /// Whether these are the capabilities of the backend where nothing else is said.
    pub open spec fn are_default(self) -> bool {
        &&& self.well_formed()
        &&& self.max_context_tokens == 200_000
        &&& self.max_output_tokens == 8_192
        &&& self.supports_tool_use
        &&& self.supports_parallel_tool_calls
        &&& self.supports_structured_output == StructuredOutputMode::ToolUseEmulation
        &&& self.supports_vision
        &&& self.supports_thinking
        &&& self.supports_cancel
        &&& self.prompt_cache == PromptCacheKind::ExplicitMarker
        &&& self.streaming
        &&& self.modalities_in@.to_set() == set![Modality::Text, Modality::Image]
        &&& self.modalities_out@.to_set() == set![Modality::Text]
        &&& self.pricing == (Pricing { input: 0, output: 0, cached_input: 0, cache_creation: 0 })
    }
}

/// The capabilities of the backend where nothing else is said.
pub fn default_capabilities() -> (caps: Capabilities)
    ensures
        caps.are_default(),
{
    let mut modalities_in: Vec<Modality> = Vec::new();
    modalities_in.push(Modality::Text);
    modalities_in.push(Modality::Image);
    let mut modalities_out: Vec<Modality> = Vec::new();
    modalities_out.push(Modality::Text);
    proof {
        assert(modalities_in@[0] == Modality::Text);
        assert(modalities_in@[1] == Modality::Image);
        assert(modalities_in@.to_set() =~= set![Modality::Text, Modality::Image]);
        assert(modalities_out@[0] == Modality::Text);
        assert(modalities_out@.to_set() =~= set![Modality::Text]);
    }
    Capabilities {
        max_context_tokens: 200_000,
        max_output_tokens: 8_192,
        supports_tool_use: true,
        supports_parallel_tool_calls: true,
        supports_structured_output: StructuredOutputMode::ToolUseEmulation,
        supports_vision: true,
        supports_thinking: true,
        supports_cancel: true,
        prompt_cache: PromptCacheKind::ExplicitMarker,
        streaming: true,
        modalities_in,
        modalities_out,
        pricing: Pricing::default(),
    }
}

/// Sets a provider up.
#[derive(Clone, Debug)]
pub struct AnthropicProviderBuilder {
    pub id: ProviderId,
    pub base_url: String,
    pub api_version: String,
    pub auth: Auth,
    pub capabilities: Option<Capabilities>,
    pub extras: HttpProviderExtras,
}

/// A provider. `H` is what sends its requests, `R` what resolves its credential.
pub struct AnthropicProvider<H, R> {
    pub id: ProviderId,
    pub http: H,
    pub auth_resolver: R,
    pub auth: Auth,
    pub adapter: Arc<AnthropicAdapter>,
    pub capabilities: Capabilities,
}

impl AnthropicProviderBuilder {
    /// A provider with this name and credential, everything else left at its default.
    pub fn new(id: &str, auth: Auth) -> (builder: AnthropicProviderBuilder)
        ensures
            builder.id.name@ == id@,
            builder.base_url@ == DEFAULT_BASE_URL@,
            builder.api_version@ == DEFAULT_API_VERSION@,
            builder.auth == auth,
            builder.capabilities is None,
            builder.extras.headers@.len() == 0,
    {
        AnthropicProviderBuilder {
            id: ProviderId::new(id),
            base_url: DEFAULT_BASE_URL.to_string(),
            api_version: DEFAULT_API_VERSION.to_string(),
            auth,
            capabilities: None,
            extras: HttpProviderExtras::default(),
        }
    }

    /// With this address of the backend.
    pub fn base_url(self, url: &str) -> (builder: AnthropicProviderBuilder)
        ensures
            builder.base_url@ == url@,
            builder == (AnthropicProviderBuilder { base_url: builder.base_url, ..self }),
    {
        AnthropicProviderBuilder { base_url: url.to_string(), ..self }
    }

    /// With this version of the interface.
    pub fn api_version(self, version: &str) -> (builder: AnthropicProviderBuilder)
        ensures
            builder.api_version@ == version@,
            builder == (AnthropicProviderBuilder { api_version: builder.api_version, ..self }),
    {
        AnthropicProviderBuilder { api_version: version.to_string(), ..self }
    }

    /// With these capabilities.
    pub fn capabilities(self, caps: Capabilities) -> (builder: AnthropicProviderBuilder)
        ensures
            builder == (AnthropicProviderBuilder { capabilities: Some(caps), ..self }),
    {
        AnthropicProviderBuilder { capabilities: Some(caps), ..self }
    }

    /// With this to be sent with every streaming request besides.
    pub fn extras(self, extras: HttpProviderExtras) -> (builder: AnthropicProviderBuilder)
        ensures
            builder == (AnthropicProviderBuilder { extras, ..self }),
    {
        AnthropicProviderBuilder { extras, ..self }
    }

    /// The provider.
    pub fn build<H, R>(self, http: H, auth_resolver: R) -> (provider: Arc<AnthropicProvider<H, R>>)
        ensures
            provider.id == self.id,
            provider.http == http,
            provider.auth_resolver == auth_resolver,
            provider.auth == self.auth,
            provider.adapter.base_url == self.base_url,
            provider.adapter.api_version == self.api_version,
            provider.adapter.extras == self.extras,
            match self.capabilities {
                Some(caps) => provider.capabilities == caps,
                None => provider.capabilities.are_default(),
            },
    {
        let capabilities = match self.capabilities {
            Some(caps) => caps,
            None => default_capabilities(),
        };
        let adapter = Arc::new(
            AnthropicAdapter {
                base_url: self.base_url,
                api_version: self.api_version,
                extras: self.extras,
            },
        );
        Arc::new(
            AnthropicProvider {
                id: self.id,
                http,
                auth_resolver,
                auth: self.auth,
                adapter,
                capabilities,
            },
        )
    }
}

impl<H, R> AnthropicProvider<H, R> {
    /// The name of the provider.
    pub fn id(&self) -> (id: &ProviderId)
        ensures
            *id == self.id,
    {
        &self.id
    }

    /// What the provider can do.
    pub fn capabilities(&self) -> (caps: &Capabilities)
        ensures
            *caps == self.capabilities,
    {
        &self.capabilities
    }
}

} // verus!
