//! Configuration: provider profiles, role bindings, retry and HTTP settings,
//! and how they resolve for each service.
use vstd::prelude::*;
use std::time::Duration;
use crate::text::{
    append_str, ascii_lowercase, lower_ascii, copy_opt_string, has_prefix, same_text, string_from_chars,
    to_ascii_lowercase, trim, trim_chars, chars_of, trim_end_char, trim_end_matches_char,
    starts_with_str,
};

verus! {

// ── durations ────────────────────────────────────────────────────────

/// The `Duration` that `Duration::from_millis(ms)` makes.
pub uninterp spec fn millis_duration(ms: u64) -> Duration;

/// The `Duration` that `Duration::from_secs(secs)` makes.
pub uninterp spec fn secs_duration(secs: u64) -> Duration;

/// `Duration::from_millis(ms)`.
pub fn millis(ms: u64) -> (d: Duration)
    ensures
        d == millis_duration(ms),
{
    duration_from_millis(ms)
}

/// Calls `Duration::from_millis`; the contract names the result.
#[verifier::external_body]
fn duration_from_millis(ms: u64) -> (d: Duration)
    ensures
        d == millis_duration(ms),
{
    Duration::from_millis(ms)
}

/// Calls `Duration::from_secs`; the contract names the result.
#[verifier::external_body]
fn duration_from_secs(secs: u64) -> (d: Duration)
    ensures
        d == secs_duration(secs),
{
    Duration::from_secs(secs)
}

// ── thinking controls ────────────────────────────────────────────────

/// Optional thinking/reasoning controls for OpenAI-compatible providers that
/// support them.
#[derive(Debug, Clone, Default)]
pub struct ThinkingConfig {
    /// `Some(true)` sends `thinking: { type: "enabled" }`, `Some(false)` sends
    /// "disabled", `None` omits the field.
    pub thinking_enabled: Option<bool>,
    /// Sent as `reasoning_effort` when set; `low`/`medium` mean `high`,
    /// `xhigh` means `max`.
    pub reasoning_effort: Option<String>,
}

/// The content of thinking controls.
pub struct ThinkingModel {
    pub thinking_enabled: Option<bool>,
    pub reasoning_effort: Option<Seq<char>>,
}

/// The view of an optional string.
pub open spec fn opt_view(o: Option<String>) -> Option<Seq<char>> {
    match o {
        Some(s) => Some(s@),
        None => None,
    }
}

impl View for ThinkingConfig {
    type V = ThinkingModel;

    open spec fn view(&self) -> ThinkingModel {
        ThinkingModel {
            thinking_enabled: self.thinking_enabled,
            reasoning_effort: opt_view(self.reasoning_effort),
        }
    }
}

/// The canonical reasoning effort for a configured value: `low` and `medium`
/// become `high`, `xhigh` becomes `max`, anything else is kept lower-cased.
pub open spec fn canonical_effort(v: Seq<char>) -> Seq<char> {
    let l = ascii_lowercase(v);
    if l == "low"@ || l == "medium"@ {
        "high"@
    } else if l == "xhigh"@ {
        "max"@
    } else {
        l
    }
}

/// Resolving the effort aliases twice gives what resolving once gives: a
/// canonical effort stays as it is.
pub proof fn canonical_effort_is_stable(v: Seq<char>)
    ensures
        canonical_effort(canonical_effort(v)) == canonical_effort(v),
{
    let l = ascii_lowercase(v);
    assert forall|i: int| 0 <= i < l.len() implies lower_ascii(#[trigger] l[i]) == l[i] by {
        let c = v[i];
        if 'A' <= c && c <= 'Z' {
            assert(l[i] == ((c as u32) + 32) as char);
        }
    }
    assert(ascii_lowercase(l) =~= l);
    reveal_strlit("high");
    reveal_strlit("max");
    reveal_strlit("low");
    reveal_strlit("medium");
    reveal_strlit("xhigh");
    assert(ascii_lowercase("high"@) =~= "high"@);
    assert(ascii_lowercase("max"@) =~= "max"@);
    assert("max"@[0] != "low"@[0]);
    if l == "low"@ || l == "medium"@ {
        assert(canonical_effort(v) == "high"@);
    } else if l == "xhigh"@ {
        assert(canonical_effort(v) == "max"@);
        assert("max"@ != "low"@);
    } else {
        assert(canonical_effort(v) == l);
    }
}

impl ThinkingConfig {
    /// The reasoning effort with its aliases resolved.
    pub fn normalised_reasoning_effort(&self) -> (r: Option<String>)
        ensures
            r matches Some(e) ==> self.reasoning_effort matches Some(v) && e@ == canonical_effort(
                v@,
            ),
            r is None ==> self.reasoning_effort is None,
    {
        match &self.reasoning_effort {
            Some(v) => {
                let l = to_ascii_lowercase(v.as_str());
                if same_text(l.as_str(), "low") || same_text(l.as_str(), "medium") {
                    Some("high".to_owned())
                } else if same_text(l.as_str(), "xhigh") {
                    Some("max".to_owned())
                } else {
                    Some(l)
                }
            },
            None => None,
        }
    }

    /// Whether either control is set.
    pub fn is_active(&self) -> (b: bool)
        ensures
            b == (self.thinking_enabled is Some || self.reasoning_effort is Some),
    {
        self.thinking_enabled.is_some() || self.reasoning_effort.is_some()
    }
}

/// A copy of thinking controls.
pub fn copy_thinking(t: &ThinkingConfig) -> (r: ThinkingConfig)
    ensures
        r@ == t@,
{
    ThinkingConfig {
        thinking_enabled: t.thinking_enabled,
        reasoning_effort: copy_opt_string(&t.reasoning_effort),
    }
}

/// The effective thinking controls of a provider: its nested controls when it
/// has them, else its flat fields when one of them is set.
pub open spec fn effective_thinking_of(
    nested: Option<ThinkingConfig>,
    flag: Option<bool>,
    effort: Option<String>,
) -> Option<ThinkingModel> {
    match nested {
        Some(t) => Some(t@),
        None => if flag is Some || effort is Some {
            Some(ThinkingModel { thinking_enabled: flag, reasoning_effort: opt_view(effort) })
        } else {
            None
        },
    }
}

/// The view of optional thinking controls.
pub open spec fn thinking_opt_view(t: Option<ThinkingConfig>) -> Option<ThinkingModel> {
    match t {
        Some(x) => Some(x@),
        None => None,
    }
}

fn effective_thinking_from(
    nested: &Option<ThinkingConfig>,
    flag: Option<bool>,
    effort: &Option<String>,
) -> (r: Option<ThinkingConfig>)
    ensures
        thinking_opt_view(r) == effective_thinking_of(*nested, flag, *effort),
{
    if let Some(t) = nested {
        return Some(copy_thinking(t));
    }
    if flag.is_some() || effort.is_some() {
        return Some(ThinkingConfig { thinking_enabled: flag, reasoning_effort: copy_opt_string(effort) });
    }
    None
}

// ── HTTP settings ────────────────────────────────────────────────────

/// The service an HTTP client is for.
#[derive(Debug, Clone, Copy, PartialEq, Eq, Structural)]
pub enum HttpServiceKind {
    Chat,
    Embedding,
    Image,
    ImageDownload,
}

/// The HTTP settings resolved for one service.
#[derive(Debug)]
pub struct HttpProfile {
    pub connect_timeout: Duration,
    pub request_timeout: Duration,
    pub http1_only: bool,
    pub connection_close: bool,
    pub disable_compression: bool,
    pub tcp_keepalive: Duration,
    pub tcp_nodelay: bool,
    pub user_agent: String,
}

/// Transport defaults shared by all HTTP clients.
#[derive(Debug, Clone)]
pub struct HttpDefaultsConfig {
    pub connect_timeout_secs: u64,
    pub http1_only: bool,
    pub connection_close: bool,
    pub disable_compression: bool,
    pub tcp_keepalive_secs: u64,
    pub tcp_nodelay: bool,
    pub user_agent: String,
}

/// The default connect timeout, in seconds.
pub fn default_http_connect_timeout_secs() -> (r: u64)
    ensures
        r == 30,
{
    30
}

/// HTTP/1 only, by default.
pub fn default_http_http1_only() -> (r: bool)
    ensures
        r,
{
    true
}

/// Connections are closed after each request, by default.
pub fn default_http_connection_close() -> (r: bool)
    ensures
        r,
{
    true
}

/// Compression is not negotiated, by default.
pub fn default_http_disable_compression() -> (r: bool)
    ensures
        r,
{
    true
}

/// The default TCP keep-alive, in seconds.
pub fn default_http_tcp_keepalive_secs() -> (r: u64)
    ensures
        r == 30,
{
    30
}

/// TCP_NODELAY, by default.
pub fn default_http_tcp_nodelay() -> (r: bool)
    ensures
        r,
{
    true
}

/// The default user agent.
pub fn default_http_user_agent() -> (r: String)
    ensures
        r@ == "error-book/0.1"@,
{
    "error-book/0.1".to_owned()
}

impl Default for HttpDefaultsConfig {
    fn default() -> (r: Self)
        ensures
            r.connect_timeout_secs == 30,
            r.http1_only,
            r.connection_close,
            r.disable_compression,
            r.tcp_keepalive_secs == 30,
            r.tcp_nodelay,
            r.user_agent@ == "error-book/0.1"@,
    {
        HttpDefaultsConfig {
            connect_timeout_secs: default_http_connect_timeout_secs(),
            http1_only: default_http_http1_only(),
            connection_close: default_http_connection_close(),
            disable_compression: default_http_disable_compression(),
            tcp_keepalive_secs: default_http_tcp_keepalive_secs(),
            tcp_nodelay: default_http_tcp_nodelay(),
            user_agent: default_http_user_agent(),
        }
    }
}

/// A per-service override of the request timeout.
#[derive(Debug, Clone, Default)]
pub struct HttpServiceOverride {
    pub request_timeout_secs: Option<u64>,
}

/// The `[llm.http]` section.
#[derive(Debug, Clone, Default)]
pub struct HttpConfig {
    pub defaults: HttpDefaultsConfig,
    pub chat: HttpServiceOverride,
    pub embedding: HttpServiceOverride,
    pub image: HttpServiceOverride,
    pub image_download: HttpServiceOverride,
}

// ── providers ────────────────────────────────────────────────────────

/// The protocol a chat-capable provider speaks.
#[derive(Debug, Clone, Copy, PartialEq, Eq, Structural)]
pub enum ChatProvider {
    Openai,
    Google,
}

/// The protocol an embedding provider speaks.
#[derive(Debug, Clone, Copy, PartialEq, Eq, Structural)]
pub enum EmbeddingProvider {
    Openai,
    Google,
}

impl EmbeddingProvider {
    /// Whether the provider embeds images as well as text: only Google's
    /// multimodal embedding does.
    pub fn supports_image_embedding(&self) -> (b: bool)
        ensures
            b == (*self == EmbeddingProvider::Google),
    {
        match self {
            EmbeddingProvider::Google => true,
            EmbeddingProvider::Openai => false,
        }
    }

    /// Whether this provider can embed text: only Google's `embedContent`
    /// is implemented; the error says so for the others.
    pub fn check_text_embedding(&self) -> (r: Result<(), String>)
        ensures
            r is Ok <==> *self == EmbeddingProvider::Google,
            r matches Err(m) ==> m@ == "llm.embedding.provider=openai 暂未实现；当前仅支持 provider=google"@,
    {
        match self {
            EmbeddingProvider::Google => Ok(()),
            EmbeddingProvider::Openai => Err(
                string_from_chars(chars_of("llm.embedding.provider=openai 暂未实现；当前仅支持 provider=google").as_slice()),
            ),
        }
    }

    /// Whether this provider can embed an image: only Google's multimodal
    /// embedding can; the error says so for the others.
    pub fn check_image_embedding(&self) -> (r: Result<(), String>)
        ensures
            r is Ok <==> *self == EmbeddingProvider::Google,
            r matches Err(m) ==> m@
                == "llm.embedding.provider=openai 目前不支持图片 embedding；请使用 provider=google"@,
    {
        match self {
            EmbeddingProvider::Google => Ok(()),
            EmbeddingProvider::Openai => Err(
                string_from_chars(
                    chars_of("llm.embedding.provider=openai 目前不支持图片 embedding；请使用 provider=google").as_slice(),
                ),
            ),
        }
    }
}

/// The protocol an image provider speaks.
#[derive(Debug, Clone, Copy, PartialEq, Eq, Structural)]
pub enum ImageProvider {
    Openai,
    Google,
}

/// The `[llm.chat]` section: the fallback for chat-capable roles.
#[derive(Clone)]
pub struct ChatProviderConfig {
    pub provider: ChatProvider,
    pub base_url: String,
    pub api_key: String,
    pub model: String,
    pub thinking: Option<ThinkingConfig>,
    pub thinking_enabled: Option<bool>,
    pub reasoning_effort: Option<String>,
    pub openai_no_system_role: Option<bool>,
    pub structured_json_output: Option<bool>,
    pub max_output_tokens: Option<u32>,
}

impl Default for ChatProviderConfig {
    fn default() -> (r: Self)
        ensures
            r.provider == ChatProvider::Openai,
            r.base_url@ == Seq::<char>::empty(),
            r.api_key@ == Seq::<char>::empty(),
            r.model@ == Seq::<char>::empty(),
            r.thinking is None,
            r.thinking_enabled is None,
            r.reasoning_effort is None,
            r.openai_no_system_role is None,
            r.structured_json_output is None,
            r.max_output_tokens is None,
    {
        ChatProviderConfig {
            provider: ChatProvider::Openai,
            base_url: String::new(),
            api_key: String::new(),
            model: String::new(),
            thinking: None,
            thinking_enabled: None,
            reasoning_effort: None,
            openai_no_system_role: None,
            structured_json_output: None,
            max_output_tokens: None,
        }
    }
}

impl ChatProviderConfig {
    /// The effective thinking controls: nested ones win over the flat fields.
    pub fn effective_thinking(&self) -> (r: Option<ThinkingConfig>)
        ensures
            thinking_opt_view(r) == effective_thinking_of(
                self.thinking,
                self.thinking_enabled,
                self.reasoning_effort,
            ),
    {
        effective_thinking_from(&self.thinking, self.thinking_enabled, &self.reasoning_effort)
    }
}

/// The `[llm.embedding]` section.
#[derive(Clone)]
pub struct EmbeddingProviderConfig {
    pub provider: EmbeddingProvider,
    pub base_url: String,
    pub api_key: String,
    pub model: String,
    pub dimensions: u32,
}

/// The default embedding dimensions.
pub fn default_embedding_dimensions() -> (r: u32)
    ensures
        r == 1536,
{
    1536
}

impl Default for EmbeddingProviderConfig {
    fn default() -> (r: Self)
        ensures
            r.provider == EmbeddingProvider::Google,
            r.base_url@ == Seq::<char>::empty(),
            r.api_key@ == Seq::<char>::empty(),
            r.model@ == Seq::<char>::empty(),
            r.dimensions == 1536,
    {
        EmbeddingProviderConfig {
            provider: EmbeddingProvider::Google,
            base_url: String::new(),
            api_key: String::new(),
            model: String::new(),
            dimensions: default_embedding_dimensions(),
        }
    }
}

/// The `[llm.image]` section.
#[derive(Clone)]
pub struct ImageProviderConfig {
    pub provider: ImageProvider,
    pub base_url: String,
    pub api_key: String,
    pub model: String,
    pub mime_type: String,
    pub aspect_ratio: String,
    pub connect_timeout_secs: u64,
    pub request_timeout_secs: u64,
    pub download_timeout_secs: u64,
}

/// The default image MIME type.
pub fn default_image_mime_type() -> (r: String)
    ensures
        r@ == "image/png"@,
{
    "image/png".to_owned()
}

/// The default image aspect ratio.
pub fn default_image_aspect_ratio() -> (r: String)
    ensures
        r@ == "3:4"@,
{
    "3:4".to_owned()
}

/// The default connect timeout of image requests, in seconds.
pub fn default_image_connect_timeout_secs() -> (r: u64)
    ensures
        r == 30,
{
    30
}

/// The default timeout of image generation requests, in seconds.
pub fn default_image_request_timeout_secs() -> (r: u64)
    ensures
        r == 600,
{
    600
}

/// The default timeout of image downloads, in seconds.
pub fn default_image_download_timeout_secs() -> (r: u64)
    ensures
        r == 120,
{
    120
}

impl Default for ImageProviderConfig {
    fn default() -> (r: Self)
        ensures
            r.provider == ImageProvider::Google,
            r.base_url@ == Seq::<char>::empty(),
            r.api_key@ == Seq::<char>::empty(),
            r.model@ == Seq::<char>::empty(),
            r.mime_type@ == "image/png"@,
            r.aspect_ratio@ == "3:4"@,
            r.connect_timeout_secs == 30,
            r.request_timeout_secs == 600,
            r.download_timeout_secs == 120,
    {
        ImageProviderConfig {
            provider: ImageProvider::Google,
            base_url: String::new(),
            api_key: String::new(),
            model: String::new(),
            mime_type: default_image_mime_type(),
            aspect_ratio: default_image_aspect_ratio(),
            connect_timeout_secs: default_image_connect_timeout_secs(),
            request_timeout_secs: default_image_request_timeout_secs(),
            download_timeout_secs: default_image_download_timeout_secs(),
        }
    }
}

/// A named provider profile under `[llm.providers.<name>]`.
#[derive(Clone)]
pub struct NamedProviderConfig {
    pub provider: ChatProvider,
    pub base_url: String,
    pub api_key: String,
    pub model: String,
    pub thinking: Option<ThinkingConfig>,
    pub thinking_enabled: Option<bool>,
    pub reasoning_effort: Option<String>,
    pub openai_no_system_role: Option<bool>,
    pub structured_json_output: Option<bool>,
    pub max_output_tokens: Option<u32>,
}

impl NamedProviderConfig {
    /// The effective thinking controls: nested ones win over the flat fields.
    pub fn effective_thinking(&self) -> (r: Option<ThinkingConfig>)
        ensures
            thinking_opt_view(r) == effective_thinking_of(
                self.thinking,
                self.thinking_enabled,
                self.reasoning_effort,
            ),
    {
        effective_thinking_from(&self.thinking, self.thinking_enabled, &self.reasoning_effort)
    }
}

/// Role to provider-name bindings under `[llm.roles]`.
#[derive(Debug, Clone, Default)]
pub struct RoleBindings {
    pub vision_recognition: Option<String>,
    pub structured_extraction: Option<String>,
    pub pedagogical_analysis: Option<String>,
    pub summary_synthesis: Option<String>,
    pub infographic_planning: Option<String>,
    pub practice_planning: Option<String>,
    pub practice_generation: Option<String>,
    pub image_generation: Option<String>,
    pub embedding: Option<String>,
}

/// The roles the application asks models to play.
#[derive(Debug, Clone, Copy, PartialEq, Eq, Hash, Structural)]
pub enum RoleKind {
    VisionRecognition,
    StructuredExtraction,
    PedagogicalAnalysis,
    SummarySynthesis,
    InfographicPlanning,
    PracticePlanning,
    PracticeGeneration,
    ImageGeneration,
    Embedding,
}

/// The retry policy of model requests.
#[derive(Debug, Clone)]
pub struct RetryConfig {
    pub max_attempts: u32,
    pub base_delay_ms: u64,
    pub max_delay_ms: u64,
    pub retryable_status_codes: Vec<u16>,
}

/// The `[llm]` section. `providers` lists the named provider profiles by
/// name, each name once.
#[derive(Clone)]
pub struct LlmConfig {
    pub chat: ChatProviderConfig,
    pub embedding: EmbeddingProviderConfig,
    pub image: Option<ImageProviderConfig>,
    pub retry: RetryConfig,
    pub http: HttpConfig,
    pub providers: Vec<(String, NamedProviderConfig)>,
    pub roles: RoleBindings,
}

/// A provider profile resolved for a role.
#[derive(Debug, Clone)]
pub struct ResolvedProvider {
    pub provider: ChatProvider,
    pub base_url: String,
    pub api_key: String,
    pub model: String,
    pub thinking: Option<ThinkingConfig>,
    pub openai_no_system_role: bool,
    pub structured_json_output: bool,
    pub max_output_tokens: Option<u32>,
}

/// The content of a resolved provider.
pub struct ResolvedModel {
    pub provider: ChatProvider,
    pub base_url: Seq<char>,
    pub api_key: Seq<char>,
    pub model: Seq<char>,
    pub thinking: Option<ThinkingModel>,
    pub openai_no_system_role: bool,
    pub structured_json_output: bool,
    pub max_output_tokens: Option<u32>,
}

impl View for ResolvedProvider {
    type V = ResolvedModel;

    open spec fn view(&self) -> ResolvedModel {
        ResolvedModel {
            provider: self.provider,
            base_url: self.base_url@,
            api_key: self.api_key@,
            model: self.model@,
            thinking: thinking_opt_view(self.thinking),
            openai_no_system_role: self.openai_no_system_role,
            structured_json_output: self.structured_json_output,
            max_output_tokens: self.max_output_tokens,
        }
    }
}

/// The provider name bound to `role`, if any.
pub open spec fn role_binding(roles: RoleBindings, role: RoleKind) -> Option<String> {
    match role {
        RoleKind::VisionRecognition => roles.vision_recognition,
        RoleKind::StructuredExtraction => roles.structured_extraction,
        RoleKind::PedagogicalAnalysis => roles.pedagogical_analysis,
        RoleKind::SummarySynthesis => roles.summary_synthesis,
        RoleKind::InfographicPlanning => roles.infographic_planning,
        RoleKind::PracticePlanning => roles.practice_planning,
        RoleKind::PracticeGeneration => roles.practice_generation,
        RoleKind::ImageGeneration => roles.image_generation,
        RoleKind::Embedding => roles.embedding,
    }
}

/// The index of the provider named `name`, searching from `i`.
pub open spec fn provider_index_from(
    providers: Seq<(String, NamedProviderConfig)>,
    name: Seq<char>,
    i: int,
) -> Option<int>
    decreases providers.len() - i,
{
    if i < 0 || i >= providers.len() {
        None
    } else if providers[i].0@ == name {
        Some(i)
    } else {
        provider_index_from(providers, name, i + 1)
    }
}

/// The index of the provider named `name`.
pub open spec fn provider_index(providers: Seq<(String, NamedProviderConfig)>, name: Seq<char>) -> Option<
    int,
> {
    provider_index_from(providers, name, 0)
}

/// A named provider as resolved.
pub open spec fn from_named(p: NamedProviderConfig) -> ResolvedModel {
    ResolvedModel {
        provider: p.provider,
        base_url: p.base_url@,
        api_key: p.api_key@,
        model: p.model@,
        thinking: effective_thinking_of(p.thinking, p.thinking_enabled, p.reasoning_effort),
        openai_no_system_role: p.openai_no_system_role == Some(true),
        structured_json_output: p.structured_json_output == Some(true),
        max_output_tokens: p.max_output_tokens,
    }
}

/// The `[llm.chat]` fallback as resolved.
pub open spec fn from_chat(c: ChatProviderConfig) -> ResolvedModel {
    ResolvedModel {
        provider: c.provider,
        base_url: c.base_url@,
        api_key: c.api_key@,
        model: c.model@,
        thinking: effective_thinking_of(c.thinking, c.thinking_enabled, c.reasoning_effort),
        openai_no_system_role: c.openai_no_system_role == Some(true),
        structured_json_output: c.structured_json_output == Some(true),
        max_output_tokens: c.max_output_tokens,
    }
}

/// The protocol of an embedding or image provider as a chat provider.
pub open spec fn as_chat_provider(openai: bool) -> ChatProvider {
    if openai {
        ChatProvider::Openai
    } else {
        ChatProvider::Google
    }
}

/// The legacy provider of a role: `[llm.embedding]` for embeddings,
/// `[llm.image]` for images (none without it), `[llm.chat]` otherwise.
pub open spec fn legacy_provider(llm: LlmConfig, role: RoleKind) -> Option<ResolvedModel> {
    match role {
        RoleKind::Embedding => Some(
            ResolvedModel {
                provider: as_chat_provider(llm.embedding.provider == EmbeddingProvider::Openai),
                base_url: llm.embedding.base_url@,
                api_key: llm.embedding.api_key@,
                model: llm.embedding.model@,
                thinking: None,
                openai_no_system_role: false,
                structured_json_output: false,
                max_output_tokens: None,
            },
        ),
        RoleKind::ImageGeneration => match llm.image {
            Some(img) => Some(
                ResolvedModel {
                    provider: as_chat_provider(img.provider == ImageProvider::Openai),
                    base_url: img.base_url@,
                    api_key: img.api_key@,
                    model: img.model@,
                    thinking: None,
                    openai_no_system_role: false,
                    structured_json_output: false,
                    max_output_tokens: None,
                },
            ),
            None => None,
        },
        _ => Some(from_chat(llm.chat)),
    }
}

/// The provider a role resolves to: the named provider its binding names
/// when that exists, else the legacy section for the role; `None` for image
/// generation when neither a bound provider nor `[llm.image]` exists.
pub open spec fn resolved_provider(llm: LlmConfig, role: RoleKind) -> Option<ResolvedModel> {
    match role_binding(llm.roles, role) {
        Some(name) => match provider_index(llm.providers@, name@) {
            Some(i) => Some(from_named(llm.providers@[i].1)),
            None => legacy_provider(llm, role),
        },
        None => legacy_provider(llm, role),
    }
}

/// The binding `b` names the provider at index `i` (its first entry with that name).
pub open spec fn names_provider(b: Option<String>, providers: Seq<(String, NamedProviderConfig)>, i: int) -> bool {
    b matches Some(n) && provider_index(providers, n@) == Some(i)
}

/// `m` is the profile of the named provider `p`: its protocol, address, key and model.
pub open spec fn profile_of(m: Option<ResolvedModel>, p: NamedProviderConfig) -> bool {
    m matches Some(r) && r.provider == p.provider && r.base_url == p.base_url@ && r.api_key
        == p.api_key@ && r.model == p.model@
}

/// Each role reads its own binding under `[llm.roles]`: when the field of
/// that role names an existing provider, the role resolves to that provider,
/// whatever the other roles are bound to.
pub proof fn each_role_reads_its_own_binding(llm: LlmConfig, i: int)
    requires
        0 <= i < llm.providers@.len(),
    ensures
        ({
            let ps = llm.providers@;
            let p = ps[i].1;
            &&& names_provider(llm.roles.vision_recognition, ps, i) ==> profile_of(
                resolved_provider(llm, RoleKind::VisionRecognition),
                p,
            )
            &&& names_provider(llm.roles.structured_extraction, ps, i) ==> profile_of(
                resolved_provider(llm, RoleKind::StructuredExtraction),
                p,
            )
            &&& names_provider(llm.roles.pedagogical_analysis, ps, i) ==> profile_of(
                resolved_provider(llm, RoleKind::PedagogicalAnalysis),
                p,
            )
            &&& names_provider(llm.roles.summary_synthesis, ps, i) ==> profile_of(
                resolved_provider(llm, RoleKind::SummarySynthesis),
                p,
            )
            &&& names_provider(llm.roles.infographic_planning, ps, i) ==> profile_of(
                resolved_provider(llm, RoleKind::InfographicPlanning),
                p,
            )
            &&& names_provider(llm.roles.practice_planning, ps, i) ==> profile_of(
                resolved_provider(llm, RoleKind::PracticePlanning),
                p,
            )
            &&& names_provider(llm.roles.practice_generation, ps, i) ==> profile_of(
                resolved_provider(llm, RoleKind::PracticeGeneration),
                p,
            )
            &&& names_provider(llm.roles.image_generation, ps, i) ==> profile_of(
                resolved_provider(llm, RoleKind::ImageGeneration),
                p,
            )
            &&& names_provider(llm.roles.embedding, ps, i) ==> profile_of(
                resolved_provider(llm, RoleKind::Embedding),
                p,
            )
        }),
{
}

/// The error when image generation has no provider.
pub open spec fn image_provider_missing() -> Seq<char> {
    "未配置图片生成 provider：请在 [llm.roles] 中绑定 image_generation，或配置 [llm.image]"@
}

fn binding_of(roles: &RoleBindings, role: RoleKind) -> (r: &Option<String>)
    ensures
        *r == role_binding(*roles, role),
{
    match role {
        RoleKind::VisionRecognition => &roles.vision_recognition,
        RoleKind::StructuredExtraction => &roles.structured_extraction,
        RoleKind::PedagogicalAnalysis => &roles.pedagogical_analysis,
        RoleKind::SummarySynthesis => &roles.summary_synthesis,
        RoleKind::InfographicPlanning => &roles.infographic_planning,
        RoleKind::PracticePlanning => &roles.practice_planning,
        RoleKind::PracticeGeneration => &roles.practice_generation,
        RoleKind::ImageGeneration => &roles.image_generation,
        RoleKind::Embedding => &roles.embedding,
    }
}

/// Finds the provider named `name`.
pub fn find_provider(providers: &Vec<(String, NamedProviderConfig)>, name: &str) -> (r: Option<usize>)
    ensures
        r matches Some(i) ==> provider_index(providers@, name@) == Some(i as int) && i < providers@.len(),
        r is None ==> provider_index(providers@, name@) is None,
{
    let n = providers.len();
    let mut i: usize = 0;
    while i < n
        invariant
            i <= n,
            n == providers@.len(),
            provider_index(providers@, name@) == provider_index_from(providers@, name@, i as int),
        decreases n - i,
    {
        if same_text(providers[i].0.as_str(), name) {
            return Some(i);
        }
        i = i + 1;
    }
    None
}

/// No two named providers share a name.
pub open spec fn distinct_provider_names(p: Seq<(String, NamedProviderConfig)>) -> bool {
    forall|i: int, j: int| 0 <= i < j < p.len() ==> p[i].0@ != p[j].0@
}

/// With distinct names, the provider found for a name is the one that has it.
pub proof fn named_provider_is_unique(p: Seq<(String, NamedProviderConfig)>, k: int)
    requires
        distinct_provider_names(p),
        0 <= k < p.len(),
    ensures
        provider_index(p, p[k].0@) == Some(k),
{
    let name = p[k].0@;
    assert forall|i: int| 0 <= i <= k implies provider_index_from(p, name, i) == Some(k) by {
        lemma_index_from_reaches(p, k, i);
    }
}

proof fn lemma_index_from_reaches(p: Seq<(String, NamedProviderConfig)>, k: int, i: int)
    requires
        distinct_provider_names(p),
        0 <= i <= k < p.len(),
    ensures
        provider_index_from(p, p[k].0@, i) == Some(k),
    decreases k - i,
{
    if i < k {
        assert(p[i].0@ != p[k].0@);
        lemma_index_from_reaches(p, k, i + 1);
    }
}

/// The check that no two named providers share a name; the error names the
/// first repeated one.
pub fn validate_provider_names(providers: &Vec<(String, NamedProviderConfig)>) -> (r: Result<(), String>)
    ensures
        r is Ok <==> distinct_provider_names(providers@),
        r matches Err(m) ==> exists|i: int, j: int|
            0 <= i < j < providers@.len() && providers@[i].0@ == providers@[j].0@ && m@
                == "llm.providers 中存在重复的 provider 名称: "@ + providers@[j].0@,
{
    let n = providers.len();
    let mut j: usize = 0;
    while j < n
        invariant
            j <= n,
            n == providers@.len(),
            forall|a: int, b: int| 0 <= a < b < j ==> providers@[a].0@ != providers@[b].0@,
        decreases n - j,
    {
        let mut i: usize = 0;
        while i < j
            invariant
                i <= j < n,
                n == providers@.len(),
                forall|a: int| 0 <= a < i ==> providers@[a].0@ != providers@[j as int].0@,
            decreases j - i,
        {
            if same_text(providers[i].0.as_str(), providers[j].0.as_str()) {
                let mut out: Vec<char> = Vec::new();
                append_str(&mut out, "llm.providers 中存在重复的 provider 名称: ");
                append_str(&mut out, providers[j].0.as_str());
                return Err(string_from_chars(out.as_slice()));
            }
            i = i + 1;
        }
        j = j + 1;
    }
    Ok(())
}

fn resolve_named(p: &NamedProviderConfig) -> (r: ResolvedProvider)
    ensures
        r@ == from_named(*p),
{
    ResolvedProvider {
        provider: p.provider,
        base_url: p.base_url.clone(),
        api_key: p.api_key.clone(),
        model: p.model.clone(),
        thinking: p.effective_thinking(),
        openai_no_system_role: match p.openai_no_system_role {
            Some(b) => b,
            None => false,
        },
        structured_json_output: match p.structured_json_output {
            Some(b) => b,
            None => false,
        },
        max_output_tokens: p.max_output_tokens,
    }
}

fn resolve_chat(c: &ChatProviderConfig) -> (r: ResolvedProvider)
    ensures
        r@ == from_chat(*c),
{
    ResolvedProvider {
        provider: c.provider,
        base_url: c.base_url.clone(),
        api_key: c.api_key.clone(),
        model: c.model.clone(),
        thinking: c.effective_thinking(),
        openai_no_system_role: match c.openai_no_system_role {
            Some(b) => b,
            None => false,
        },
        structured_json_output: match c.structured_json_output {
            Some(b) => b,
            None => false,
        },
        max_output_tokens: c.max_output_tokens,
    }
}

impl LlmConfig {
    /// Resolves a role to a provider profile: the named provider bound to the
    /// role when it exists, else the legacy section for the role. Image
    /// generation has no fallback beyond `[llm.image]`: without it (and without
    /// a bound provider) resolution is an error.
    pub fn resolve_role_provider(&self, role: RoleKind) -> (r: Result<ResolvedProvider, String>)
        ensures
            r matches Ok(p) ==> resolved_provider(*self, role) == Some(p@),
            r is Err <==> resolved_provider(*self, role) is None,
            r matches Err(m) ==> m@ == image_provider_missing(),
            r is Err ==> role == RoleKind::ImageGeneration && self.image is None,
    {
        if let Some(name) = binding_of(&self.roles, role) {
            if let Some(i) = find_provider(&self.providers, name.as_str()) {
                return Ok(resolve_named(&self.providers[i].1));
            }
        }
        match role {
            RoleKind::Embedding => Ok(ResolvedProvider {
                provider: match self.embedding.provider {
                    EmbeddingProvider::Openai => ChatProvider::Openai,
                    EmbeddingProvider::Google => ChatProvider::Google,
                },
                base_url: self.embedding.base_url.clone(),
                api_key: self.embedding.api_key.clone(),
                model: self.embedding.model.clone(),
                thinking: None,
                openai_no_system_role: false,
                structured_json_output: false,
                max_output_tokens: None,
            }),
            RoleKind::ImageGeneration => match &self.image {
                Some(img) => Ok(ResolvedProvider {
                    provider: match img.provider {
                        ImageProvider::Openai => ChatProvider::Openai,
                        ImageProvider::Google => ChatProvider::Google,
                    },
                    base_url: img.base_url.clone(),
                    api_key: img.api_key.clone(),
                    model: img.model.clone(),
                    thinking: None,
                    openai_no_system_role: false,
                    structured_json_output: false,
                    max_output_tokens: None,
                }),
                None => Err(
                    string_from_chars(
                        chars_of(
                            "未配置图片生成 provider：请在 [llm.roles] 中绑定 image_generation，或配置 [llm.image]",
                        ).as_slice(),
                    ),
                ),
            },
            _ => Ok(resolve_chat(&self.chat)),
        }
    }
}

// ── retries ──────────────────────────────────────────────────────────

/// The default number of attempts.
pub fn default_max_attempts() -> (r: u32)
    ensures
        r == 5,
{
    5
}

/// The default base delay, in milliseconds.
pub fn default_base_delay_ms() -> (r: u64)
    ensures
        r == 500,
{
    500
}

/// The default maximum delay, in milliseconds.
pub fn default_max_delay_ms() -> (r: u64)
    ensures
        r == 30000,
{
    30000
}

/// The status codes retried by default.
pub fn default_retryable_codes() -> (r: Vec<u16>)
    ensures
        r@ == seq![429u16, 500u16, 502u16, 503u16, 504u16],
{
    let v: Vec<u16> = vec![429, 500, 502, 503, 504];
    v
}

impl Default for RetryConfig {
    fn default() -> (r: Self)
        ensures
            r.max_attempts == 5,
            r.base_delay_ms == 500,
            r.max_delay_ms == 30000,
            r.retryable_status_codes@ == seq![429u16, 500u16, 502u16, 503u16, 504u16],
    {
        RetryConfig {
            max_attempts: default_max_attempts(),
            base_delay_ms: default_base_delay_ms(),
            max_delay_ms: default_max_delay_ms(),
            retryable_status_codes: default_retryable_codes(),
        }
    }
}

impl RetryConfig {
    /// The delay before the first retry.
    pub fn base_delay(&self) -> (d: Duration)
        ensures
            d == millis_duration(self.base_delay_ms),
    {
        duration_from_millis(self.base_delay_ms)
    }

    /// The longest delay between retries.
    pub fn max_delay(&self) -> (d: Duration)
        ensures
            d == millis_duration(self.max_delay_ms),
    {
        duration_from_millis(self.max_delay_ms)
    }

    /// Whether a response with this status is retried.
    pub fn is_retryable(&self, status: u16) -> (b: bool)
        ensures
            b == self.retryable_status_codes@.contains(status),
    {
        let n = self.retryable_status_codes.len();
        let mut i: usize = 0;
        while i < n
            invariant
                i <= n,
                n == self.retryable_status_codes@.len(),
                forall|k: int| 0 <= k < i ==> self.retryable_status_codes@[k] != status,
            decreases n - i,
        {
            if self.retryable_status_codes[i] == status {
                return true;
            }
            i = i + 1;
        }
        false
    }
}

// ── other sections ───────────────────────────────────────────────────

/// The `[database]` section.
#[derive(Debug, Clone)]
pub struct DatabaseConfig {
    pub url: String,
    pub auth_token: Option<String>,
}

/// The `[storage]` section; paths as written, resolved against the
/// configuration file's directory when relative.
#[derive(Debug, Clone)]
pub struct StorageConfig {
    pub image_dir: String,
    pub pdf_dir: String,
    pub generated_image_dir: String,
}

/// The default directory of generated images.
pub fn default_generated_image_dir() -> (r: String)
    ensures
        r@ == "./data/generated-images"@,
{
    "./data/generated-images".to_owned()
}

/// The `[defaults]` section.
#[derive(Debug, Clone)]
pub struct DefaultsConfig {
    pub grade_level: String,
}

/// The default grade level.
pub fn default_grade_level() -> (r: String)
    ensures
        r@ == "二年级"@,
{
    "二年级".to_owned()
}

impl Default for DefaultsConfig {
    fn default() -> (r: Self)
        ensures
            r.grade_level@ == "二年级"@,
    {
        DefaultsConfig { grade_level: default_grade_level() }
    }
}

/// The `[pdf]` section.
#[derive(Debug, Clone)]
pub struct PdfConfig {
    pub font_path: String,
}

/// The `[logging]` section.
#[derive(Debug, Clone)]
pub struct LoggingConfig {
    pub level: String,
    pub file: Option<String>,
}

/// The default log level.
pub fn default_log_level() -> (r: String)
    ensures
        r@ == "info"@,
{
    "info".to_owned()
}

impl Default for LoggingConfig {
    fn default() -> (r: Self)
        ensures
            r.level@ == "info"@,
            r.file is None,
    {
        LoggingConfig { level: default_log_level(), file: None }
    }
}

// ── per-service HTTP settings ────────────────────────────────────────

/// The request timeout of a service, in seconds: its `[llm.http.*]` override;
/// for images, else the legacy `[llm.image]` timeout; else the default
/// (chat 120, embedding 60, image 600, download 120).
pub open spec fn request_timeout_secs_of(
    http: HttpConfig,
    kind: HttpServiceKind,
    legacy: Option<ImageProviderConfig>,
) -> u64 {
    match kind {
        HttpServiceKind::Chat => match http.chat.request_timeout_secs {
            Some(v) => v,
            None => 120,
        },
        HttpServiceKind::Embedding => match http.embedding.request_timeout_secs {
            Some(v) => v,
            None => 60,
        },
        HttpServiceKind::Image => match http.image.request_timeout_secs {
            Some(v) => v,
            None => match legacy {
                Some(ic) => ic.request_timeout_secs,
                None => 600,
            },
        },
        HttpServiceKind::ImageDownload => match http.image_download.request_timeout_secs {
            Some(v) => v,
            None => match legacy {
                Some(ic) => ic.download_timeout_secs,
                None => 120,
            },
        },
    }
}

/// The request timeout of a service, in seconds.
pub fn request_timeout_secs(
    http: &HttpConfig,
    kind: HttpServiceKind,
    legacy_image: Option<&ImageProviderConfig>,
) -> (r: u64)
    ensures
        r == request_timeout_secs_of(
            *http,
            kind,
            match legacy_image {
                Some(ic) => Some(*ic),
                None => None,
            },
        ),
{
    let (override_val, default_secs) = match kind {
        HttpServiceKind::Chat => (http.chat.request_timeout_secs, 120u64),
        HttpServiceKind::Embedding => (http.embedding.request_timeout_secs, 60u64),
        HttpServiceKind::Image => {
            let fallback = match legacy_image {
                Some(ic) => ic.request_timeout_secs,
                None => default_image_request_timeout_secs(),
            };
            (
                match http.image.request_timeout_secs {
                    Some(v) => Some(v),
                    None => Some(fallback),
                },
                default_image_request_timeout_secs(),
            )
        },
        HttpServiceKind::ImageDownload => {
            let fallback = match legacy_image {
                Some(ic) => ic.download_timeout_secs,
                None => default_image_download_timeout_secs(),
            };
            (
                match http.image_download.request_timeout_secs {
                    Some(v) => Some(v),
                    None => Some(fallback),
                },
                default_image_download_timeout_secs(),
            )
        },
    };
    match override_val {
        Some(v) => v,
        None => default_secs,
    }
}

/// The request timeout of a service.
pub fn resolve_request_timeout(
    http: &HttpConfig,
    kind: HttpServiceKind,
    legacy_image: Option<&ImageProviderConfig>,
) -> (d: Duration)
    ensures
        d == secs_duration(
            request_timeout_secs_of(
                *http,
                kind,
                match legacy_image {
                    Some(ic) => Some(*ic),
                    None => None,
                },
            ),
        ),
{
    duration_from_secs(request_timeout_secs(http, kind, legacy_image))
}

/// The HTTP settings of a service: the shared defaults with the service's
/// request timeout.
pub fn resolve_http_profile(llm: &LlmConfig, kind: HttpServiceKind) -> (p: HttpProfile)
    ensures
        p.connect_timeout == secs_duration(llm.http.defaults.connect_timeout_secs),
        p.request_timeout == secs_duration(request_timeout_secs_of(llm.http, kind, llm.image)),
        p.http1_only == llm.http.defaults.http1_only,
        p.connection_close == llm.http.defaults.connection_close,
        p.disable_compression == llm.http.defaults.disable_compression,
        p.tcp_keepalive == secs_duration(llm.http.defaults.tcp_keepalive_secs),
        p.tcp_nodelay == llm.http.defaults.tcp_nodelay,
        p.user_agent@ == llm.http.defaults.user_agent@,
{
    let d = &llm.http.defaults;
    let request_timeout = resolve_request_timeout(&llm.http, kind, llm.image.as_ref());
    HttpProfile {
        connect_timeout: duration_from_secs(d.connect_timeout_secs),
        request_timeout,
        http1_only: d.http1_only,
        connection_close: d.connection_close,
        disable_compression: d.disable_compression,
        tcp_keepalive: duration_from_secs(d.tcp_keepalive_secs),
        tcp_nodelay: d.tcp_nodelay,
        user_agent: d.user_agent.clone(),
    }
}

// ── endpoints ────────────────────────────────────────────────────────

/// The chat completions endpoint under `base`.
pub open spec fn chat_url(base: Seq<char>) -> Seq<char> {
    trim_end_char(base, '/') + "/chat/completions"@
}

/// The chat completions endpoint of `[llm.chat]`.
pub fn chat_api_url(llm: &LlmConfig) -> (r: String)
    ensures
        r@ == chat_url(llm.chat.base_url@),
{
    let base = trim_end_matches_char(llm.chat.base_url.as_str(), '/');
    let mut out = chars_of(base.as_str());
    append_str(&mut out, "/chat/completions");
    string_from_chars(out.as_slice())
}

/// The embeddings endpoint under `base`.
pub open spec fn embeddings_url(base: Seq<char>) -> Seq<char> {
    trim_end_char(base, '/') + "/embeddings"@
}

/// The embeddings endpoint of `[llm.embedding]`.
pub fn embeddings_api_url(llm: &LlmConfig) -> (r: String)
    ensures
        r@ == embeddings_url(llm.embedding.base_url@),
{
    let base = trim_end_matches_char(llm.embedding.base_url.as_str(), '/');
    let mut out = chars_of(base.as_str());
    append_str(&mut out, "/embeddings");
    string_from_chars(out.as_slice())
}

/// The image generation endpoint: OpenAI's images API, or Google's
/// `generateContent` for Gemini models and `predict` for the others.
pub open spec fn image_url(openai: bool, base: Seq<char>, model: Seq<char>) -> Seq<char> {
    let b = trim_end_char(base, '/');
    if openai {
        b + "/images/generations"@
    } else if has_prefix(model, "gemini-"@) {
        b + "/v1beta/models/"@ + model + ":generateContent"@
    } else {
        b + "/v1beta/models/"@ + model + ":predict"@
    }
}

fn image_endpoint(openai: bool, base_url: &str, model: &str) -> (r: String)
    ensures
        r@ == image_url(openai, base_url@, model@),
{
    let base = trim_end_matches_char(base_url, '/');
    let mut out = chars_of(base.as_str());
    if openai {
        append_str(&mut out, "/images/generations");
    } else if starts_with_str(model, "gemini-") {
        append_str(&mut out, "/v1beta/models/");
        append_str(&mut out, model);
        append_str(&mut out, ":generateContent");
    } else {
        append_str(&mut out, "/v1beta/models/");
        append_str(&mut out, model);
        append_str(&mut out, ":predict");
    }
    string_from_chars(out.as_slice())
}

/// The image generation endpoint of `[llm.image]`, when configured.
pub fn image_api_url(llm: &LlmConfig) -> (r: Option<String>)
    ensures
        r matches Some(u) ==> llm.image matches Some(img) && u@ == image_url(
            img.provider == ImageProvider::Openai,
            img.base_url@,
            img.model@,
        ),
        r is None ==> llm.image is None,
{
    match &llm.image {
        Some(img) => Some(
            image_endpoint(
                match img.provider {
                    ImageProvider::Openai => true,
                    ImageProvider::Google => false,
                },
                img.base_url.as_str(),
                img.model.as_str(),
            ),
        ),
        None => None,
    }
}

/// The image generation endpoint for a resolved provider.
pub fn build_image_api_url_from_provider(provider: ChatProvider, base_url: &str, model: &str) -> (r:
    String)
    ensures
        r@ == image_url(provider == ChatProvider::Openai, base_url@, model@),
{
    image_endpoint(
        match provider {
            ChatProvider::Openai => true,
            ChatProvider::Google => false,
        },
        base_url,
        model,
    )
}

// ── validation ───────────────────────────────────────────────────────

/// Whether `[llm.image]` is complete enough: absent, or only holding extras
/// because the image role is bound to an existing named provider, or with
/// base URL, key and model all set. The error names the first missing field.
pub open spec fn image_config_check(llm: LlmConfig) -> Result<(), Seq<char>> {
    match llm.image {
        None => Ok(()),
        Some(img) => if llm.roles.image_generation is Some && provider_index(
            llm.providers@,
            llm.roles.image_generation->0@,
        ) is Some {
            Ok(())
        } else if trim(img.base_url@).len() == 0 {
            Err("llm.image.base_url 未配置"@)
        } else if trim(img.api_key@).len() == 0 {
            Err("llm.image.api_key 未配置"@)
        } else if trim(img.model@).len() == 0 {
            Err("llm.image.model 未配置"@)
        } else {
            Ok(())
        },
    }
}

fn is_blank(s: &str) -> (b: bool)
    ensures
        b == (trim(s@).len() == 0),
{
    let v = chars_of(s);
    let t = trim_chars(v.as_slice());
    t.len() == 0
}

/// Checks that `[llm.image]` can serve as the image provider when it has to.
pub fn validate_image_config(llm: &LlmConfig) -> (r: Result<(), String>)
    ensures
        r matches Ok(_) ==> image_config_check(*llm) is Ok,
        r matches Err(m) ==> image_config_check(*llm) == Err::<(), Seq<char>>(m@),
{
    let image = match &llm.image {
        Some(img) => img,
        None => return Ok(()),
    };
    if let Some(name) = &llm.roles.image_generation {
        if find_provider(&llm.providers, name.as_str()).is_some() {
            return Ok(());
        }
    }
    if is_blank(image.base_url.as_str()) {
        return Err("llm.image.base_url 未配置".to_owned());
    }
    if is_blank(image.api_key.as_str()) {
        return Err("llm.image.api_key 未配置".to_owned());
    }
    if is_blank(image.model.as_str()) {
        return Err("llm.image.model 未配置".to_owned());
    }
    Ok(())
}

// ── environment overrides ────────────────────────────────────────────

/// The `ERROR_BOOK_*` environment variables that override the file, as read.
#[derive(Debug, Clone, Default)]
pub struct ConfigEnv {
    pub llm_api_key: Option<String>,
    pub image_api_key: Option<String>,
    pub chat_api_key: Option<String>,
    pub embedding_api_key: Option<String>,
    pub llm_base_url: Option<String>,
    pub image_base_url: Option<String>,
    pub chat_base_url: Option<String>,
    pub chat_provider: Option<String>,
    pub embedding_base_url: Option<String>,
    pub embedding_provider: Option<String>,
    pub image_provider: Option<String>,
    pub image_model: Option<String>,
    pub db_url: Option<String>,
    pub log_level: Option<String>,
    pub log_file: Option<String>,
}

/// The provider a variable names, case-insensitively: `google` or `openai`.
pub open spec fn provider_token(v: Seq<char>) -> Option<bool> {
    let l = ascii_lowercase(v);
    if l == "google"@ {
        Some(false)
    } else if l == "openai"@ {
        Some(true)
    } else {
        None
    }
}

/// `Some(openai?)` for a value naming a provider.
fn parse_provider(v: &str) -> (r: Option<bool>)
    ensures
        r == provider_token(v@),
{
    let l = to_ascii_lowercase(v);
    if same_text(l.as_str(), "google") {
        Some(false)
    } else if same_text(l.as_str(), "openai") {
        Some(true)
    } else {
        None
    }
}

/// The message for an unsupported provider value of `kind` ("chat",
/// "embedding" or "image").
pub open spec fn bad_provider_message(kind: Seq<char>, v: Seq<char>) -> Seq<char> {
    "不支持的 "@ + kind + " provider: "@ + ascii_lowercase(v) + "，仅支持 google/openai"@
}

/// Whether an optional provider variable is absent or names a provider.
pub open spec fn provider_ok(v: Option<String>) -> bool {
    match v {
        Some(s) => provider_token(s@) is Some,
        None => true,
    }
}

/// The first override error: an unsupported chat, then embedding, then image
/// provider.
pub open spec fn env_error(env: ConfigEnv) -> Option<Seq<char>> {
    if !provider_ok(env.chat_provider) {
        Some(bad_provider_message("chat"@, env.chat_provider->0@))
    } else if !provider_ok(env.embedding_provider) {
        Some(bad_provider_message("embedding"@, env.embedding_provider->0@))
    } else if !provider_ok(env.image_provider) {
        Some(bad_provider_message("image"@, env.image_provider->0@))
    } else {
        None
    }
}

/// The first of two optional overrides that is set, else `old`.
pub open spec fn override2(first: Option<String>, second: Option<String>, old: Seq<char>) -> Seq<char> {
    match first {
        Some(v) => v@,
        None => match second {
            Some(v) => v@,
            None => old,
        },
    }
}

fn bad_provider(kind: &str, v: &str) -> (m: String)
    ensures
        m@ == bad_provider_message(kind@, v@),
{
    let mut out: Vec<char> = Vec::new();
    append_str(&mut out, "不支持的 ");
    append_str(&mut out, kind);
    append_str(&mut out, " provider: ");
    let l = to_ascii_lowercase(v);
    append_str(&mut out, l.as_str());
    append_str(&mut out, "，仅支持 google/openai");
    string_from_chars(out.as_slice())
}

fn check_provider(v: &Option<String>, kind: &str) -> (r: Result<Option<bool>, String>)
    ensures
        r matches Ok(p) ==> provider_ok(*v) && (match *v {
            Some(s) => p == provider_token(s@),
            None => p is None,
        }),
        r matches Err(m) ==> !provider_ok(*v) && m@ == bad_provider_message(kind@, v->0@),
{
    match v {
        Some(s) => match parse_provider(s.as_str()) {
            Some(p) => Ok(Some(p)),
            None => Err(bad_provider(kind, s.as_str())),
        },
        None => Ok(None),
    }
}

fn set_if(target: &mut String, v: &Option<String>)
    ensures
        final(target)@ == match *v {
            Some(x) => x@,
            None => old(target)@,
        },
{
    if let Some(x) = v {
        *target = x.clone();
    }
}

/// Applies the environment overrides to the configuration. Specific
/// variables win over the shared `ERROR_BOOK_LLM_*` ones; an unsupported
/// provider value is an error and leaves the configuration as it was.
pub fn apply_env_overrides(
    llm: &mut LlmConfig,
    database: &mut DatabaseConfig,
    logging: &mut LoggingConfig,
    env: &ConfigEnv,
) -> (r: Result<(), String>)
    ensures
        r matches Err(m) ==> env_error(*env) == Some(m@) && *final(llm) == *old(llm)
            && *final(database) == *old(database) && *final(logging) == *old(logging),
        r is Ok ==> env_error(*env) is None,
        r is Ok ==> final(llm).chat.api_key@ == override2(
            env.chat_api_key,
            env.llm_api_key,
            old(llm).chat.api_key@,
        ),
        r is Ok ==> final(llm).embedding.api_key@ == override2(
            env.embedding_api_key,
            env.llm_api_key,
            old(llm).embedding.api_key@,
        ),
        r is Ok ==> final(llm).chat.base_url@ == override2(
            env.chat_base_url,
            env.llm_base_url,
            old(llm).chat.base_url@,
        ),
        r is Ok ==> final(llm).embedding.base_url@ == override2(
            env.embedding_base_url,
            env.llm_base_url,
            old(llm).embedding.base_url@,
        ),
        r is Ok ==> final(llm).chat.provider == match env.chat_provider {
            Some(v) => as_chat_provider(provider_token(v@) == Some(true)),
            None => old(llm).chat.provider,
        },
        r is Ok ==> final(llm).embedding.provider == match env.embedding_provider {
            Some(v) => if provider_token(v@) == Some(true) {
                EmbeddingProvider::Openai
            } else {
                EmbeddingProvider::Google
            },
            None => old(llm).embedding.provider,
        },
        r is Ok ==> (final(llm).image is Some <==> old(llm).image is Some),
        r is Ok ==> (old(llm).image matches Some(oi) ==> final(llm).image matches Some(ni) && {
            &&& ni.api_key@ == override2(env.image_api_key, env.llm_api_key, oi.api_key@)
            &&& ni.base_url@ == override2(env.image_base_url, env.llm_base_url, oi.base_url@)
            &&& ni.provider == match env.image_provider {
                Some(v) => if provider_token(v@) == Some(true) {
                    ImageProvider::Openai
                } else {
                    ImageProvider::Google
                },
                None => oi.provider,
            }
            &&& ni.model@ == override2(env.image_model, None, oi.model@)
            &&& ni.mime_type == oi.mime_type
            &&& ni.aspect_ratio == oi.aspect_ratio
            &&& ni.connect_timeout_secs == oi.connect_timeout_secs
            &&& ni.request_timeout_secs == oi.request_timeout_secs
            &&& ni.download_timeout_secs == oi.download_timeout_secs
        }),
        r is Ok ==> final(llm).chat.model == old(llm).chat.model,
        r is Ok ==> final(llm).chat.thinking == old(llm).chat.thinking,
        r is Ok ==> final(llm).chat.thinking_enabled == old(llm).chat.thinking_enabled,
        r is Ok ==> final(llm).chat.reasoning_effort == old(llm).chat.reasoning_effort,
        r is Ok ==> final(llm).chat.openai_no_system_role == old(llm).chat.openai_no_system_role,
        r is Ok ==> final(llm).chat.structured_json_output == old(llm).chat.structured_json_output,
        r is Ok ==> final(llm).chat.max_output_tokens == old(llm).chat.max_output_tokens,
        r is Ok ==> final(llm).embedding.model == old(llm).embedding.model,
        r is Ok ==> final(llm).embedding.dimensions == old(llm).embedding.dimensions,
        r is Ok ==> final(llm).retry == old(llm).retry && final(llm).http == old(llm).http
            && final(llm).providers == old(llm).providers && final(llm).roles == old(llm).roles,
        r is Ok ==> final(database).url@ == override2(env.db_url, None, old(database).url@),
        r is Ok ==> final(database).auth_token == old(database).auth_token,
        r is Ok ==> final(logging).level@ == override2(env.log_level, None, old(logging).level@),
        r is Ok ==> final(logging).file == match env.log_file {
            Some(f) => Some(f),
            None => old(logging).file,
        },
{
    let chat_provider = match check_provider(&env.chat_provider, "chat") {
        Ok(p) => p,
        Err(m) => return Err(m),
    };
    let embedding_provider = match check_provider(&env.embedding_provider, "embedding") {
        Ok(p) => p,
        Err(m) => return Err(m),
    };
    let image_provider = match check_provider(&env.image_provider, "image") {
        Ok(p) => p,
        Err(m) => return Err(m),
    };
    set_if(&mut llm.chat.api_key, &env.llm_api_key);
    set_if(&mut llm.chat.api_key, &env.chat_api_key);
    set_if(&mut llm.embedding.api_key, &env.llm_api_key);
    set_if(&mut llm.embedding.api_key, &env.embedding_api_key);
    set_if(&mut llm.chat.base_url, &env.llm_base_url);
    set_if(&mut llm.chat.base_url, &env.chat_base_url);
    set_if(&mut llm.embedding.base_url, &env.llm_base_url);
    set_if(&mut llm.embedding.base_url, &env.embedding_base_url);
    if let Some(openai) = chat_provider {
        llm.chat.provider = if openai {
            ChatProvider::Openai
        } else {
            ChatProvider::Google
        };
    }
    if let Some(openai) = embedding_provider {
        llm.embedding.provider = if openai {
            EmbeddingProvider::Openai
        } else {
            EmbeddingProvider::Google
        };
    }
    if let Some(image) = &mut llm.image {
        set_if(&mut image.api_key, &env.llm_api_key);
        set_if(&mut image.api_key, &env.image_api_key);
        set_if(&mut image.base_url, &env.llm_base_url);
        set_if(&mut image.base_url, &env.image_base_url);
        if let Some(openai) = image_provider {
            image.provider = if openai {
                ImageProvider::Openai
            } else {
                ImageProvider::Google
            };
        }
        set_if(&mut image.model, &env.image_model);
    }
    set_if(&mut database.url, &env.db_url);
    set_if(&mut logging.level, &env.log_level);
    if let Some(f) = &env.log_file {
        logging.file = Some(f.clone());
    }
    Ok(())
}

} // verus!
