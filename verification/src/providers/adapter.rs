//! Built-in provider adapters: their static descriptors, lookup by provider
//! kind, and the platform configuration a base URL yields.
use vstd::prelude::*;

use crate::providers::error::{
    apply_layered_error_info, opt_info_view, opt_string_view, overlay_opt, rebind_adapter_error_provider,
    spec_layered_error_info, AdapterError, AdapterErrorKind, AdapterOperation, ProviderErrorInfo,
};
use crate::text::{chars_of, concat, concat3, is_blank_str, owned, spec_trim, substring, trim};
use crate::types::identity::{ProviderCapabilities, ProviderDescriptor, ProviderFamilyId, ProviderKind};
use crate::types::platform::{AuthStyle, PlatformConfig, ProtocolKind};
use crate::types::response::Response;

verus! {

/// Model of [`AuthStyle`].
pub enum SpecAuthStyle {
    Bearer,
    ApiKeyHeader(Seq<char>),
    Basic,
    Disabled,
}

/// The model of an auth style.
pub open spec fn auth_view(a: AuthStyle) -> SpecAuthStyle {
    match a {
        AuthStyle::Bearer => SpecAuthStyle::Bearer,
        AuthStyle::ApiKeyHeader(h) => SpecAuthStyle::ApiKeyHeader(h@),
        AuthStyle::Basic => SpecAuthStyle::Basic,
        AuthStyle::Disabled => SpecAuthStyle::Disabled,
    }
}

/// Model of (name, value) header pairs.
pub open spec fn headers_view(hs: Seq<(String, String)>) -> Seq<(Seq<char>, Seq<char>)> {
    hs.map_values(|h: (String, String)| (h.0@, h.1@))
}

/// Model of [`ProviderDescriptor`].
pub struct SpecProviderDescriptor {
    pub kind: ProviderKind,
    pub family: ProviderFamilyId,
    pub protocol: ProtocolKind,
    pub default_base_url: Seq<char>,
    pub endpoint_path: Seq<char>,
    pub default_auth_style: SpecAuthStyle,
    pub default_request_id_header: Seq<char>,
    pub default_headers: Seq<(Seq<char>, Seq<char>)>,
    pub capabilities: ProviderCapabilities,
}

/// The model of a descriptor.
pub open spec fn descriptor_view(d: ProviderDescriptor) -> SpecProviderDescriptor {
    SpecProviderDescriptor {
        kind: d.kind,
        family: d.family,
        protocol: d.protocol,
        default_base_url: d.default_base_url@,
        endpoint_path: d.endpoint_path@,
        default_auth_style: auth_view(d.default_auth_style),
        default_request_id_header: d.default_request_id_header@,
        default_headers: headers_view(d.default_headers@),
        capabilities: d.capabilities,
    }
}

/// The static metadata of each built-in provider kind.
pub open spec fn spec_descriptor(kind: ProviderKind) -> SpecProviderDescriptor {
    match kind {
        ProviderKind::OpenAi => SpecProviderDescriptor {
            kind,
            family: ProviderFamilyId::OpenAiCompatible,
            protocol: ProtocolKind::OpenAI,
            default_base_url: "https://api.openai.com"@,
            endpoint_path: "/v1/responses"@,
            default_auth_style: SpecAuthStyle::Bearer,
            default_request_id_header: "x-request-id"@,
            default_headers: seq![],
            capabilities: ProviderCapabilities {
                supports_streaming: true,
                supports_family_native_options: true,
                supports_provider_native_options: true,
            },
        },
        ProviderKind::Anthropic => SpecProviderDescriptor {
            kind,
            family: ProviderFamilyId::Anthropic,
            protocol: ProtocolKind::Anthropic,
            default_base_url: "https://api.anthropic.com"@,
            endpoint_path: "/v1/messages"@,
            default_auth_style: SpecAuthStyle::ApiKeyHeader("x-api-key"@),
            default_request_id_header: "request-id"@,
            default_headers: seq![("anthropic-version"@, "2023-06-01"@)],
            capabilities: ProviderCapabilities {
                supports_streaming: true,
                supports_family_native_options: true,
                supports_provider_native_options: true,
            },
        },
        ProviderKind::OpenRouter => SpecProviderDescriptor {
            kind,
            family: ProviderFamilyId::OpenAiCompatible,
            protocol: ProtocolKind::OpenAI,
            default_base_url: "https://openrouter.ai/api"@,
            endpoint_path: "/v1/responses"@,
            default_auth_style: SpecAuthStyle::Bearer,
            default_request_id_header: "x-request-id"@,
            default_headers: seq![],
            capabilities: ProviderCapabilities {
                supports_streaming: true,
                supports_family_native_options: true,
                supports_provider_native_options: true,
            },
        },
        ProviderKind::GenericOpenAiCompatible => SpecProviderDescriptor {
            kind,
            family: ProviderFamilyId::OpenAiCompatible,
            protocol: ProtocolKind::OpenAI,
            default_base_url: "https://api.openai.com"@,
            endpoint_path: "/v1/responses"@,
            default_auth_style: SpecAuthStyle::Bearer,
            default_request_id_header: "x-request-id"@,
            default_headers: seq![],
            capabilities: ProviderCapabilities {
                supports_streaming: true,
                supports_family_native_options: true,
                supports_provider_native_options: false,
            },
        },
    }
}

/// A descriptor of an OpenAI-compatible provider with bearer auth.
fn openai_like_descriptor(
    kind: ProviderKind,
    base_url: &str,
    supports_provider_native_options: bool,
) -> (r: ProviderDescriptor)
    ensures
        descriptor_view(r) == (SpecProviderDescriptor {
            kind,
            family: ProviderFamilyId::OpenAiCompatible,
            protocol: ProtocolKind::OpenAI,
            default_base_url: base_url@,
            endpoint_path: "/v1/responses"@,
            default_auth_style: SpecAuthStyle::Bearer,
            default_request_id_header: "x-request-id"@,
            default_headers: seq![],
            capabilities: ProviderCapabilities {
                supports_streaming: true,
                supports_family_native_options: true,
                supports_provider_native_options,
            },
        }),
{
    let r = ProviderDescriptor {
        kind,
        family: ProviderFamilyId::OpenAiCompatible,
        protocol: ProtocolKind::OpenAI,
        default_base_url: owned(base_url),
        endpoint_path: owned("/v1/responses"),
        default_auth_style: AuthStyle::Bearer,
        default_request_id_header: owned("x-request-id"),
        default_headers: Vec::new(),
        capabilities: ProviderCapabilities {
            supports_streaming: true,
            supports_family_native_options: true,
            supports_provider_native_options,
        },
    };
    assert(headers_view(r.default_headers@) =~= Seq::<(Seq<char>, Seq<char>)>::empty());
    r
}

/// Static metadata of the OpenAI provider.
pub fn openai_descriptor() -> (r: ProviderDescriptor)
    ensures
        descriptor_view(r) == spec_descriptor(ProviderKind::OpenAi),
{
    openai_like_descriptor(ProviderKind::OpenAi, "https://api.openai.com", true)
}

/// Static metadata of the OpenRouter provider.
pub fn openrouter_descriptor() -> (r: ProviderDescriptor)
    ensures
        descriptor_view(r) == spec_descriptor(ProviderKind::OpenRouter),
{
    openai_like_descriptor(ProviderKind::OpenRouter, "https://openrouter.ai/api", true)
}

/// Static metadata of generic self-hosted OpenAI-compatible endpoints.
pub fn generic_openai_compatible_descriptor() -> (r: ProviderDescriptor)
    ensures
        descriptor_view(r) == spec_descriptor(ProviderKind::GenericOpenAiCompatible),
{
    openai_like_descriptor(ProviderKind::GenericOpenAiCompatible, "https://api.openai.com", false)
}

/// Static metadata of the Anthropic provider.
pub fn anthropic_descriptor() -> (r: ProviderDescriptor)
    ensures
        descriptor_view(r) == spec_descriptor(ProviderKind::Anthropic),
{
    let mut default_headers: Vec<(String, String)> = Vec::new();
    default_headers.push((owned("anthropic-version"), owned("2023-06-01")));
    let r = ProviderDescriptor {
        kind: ProviderKind::Anthropic,
        family: ProviderFamilyId::Anthropic,
        protocol: ProtocolKind::Anthropic,
        default_base_url: owned("https://api.anthropic.com"),
        endpoint_path: owned("/v1/messages"),
        default_auth_style: AuthStyle::ApiKeyHeader(owned("x-api-key")),
        default_request_id_header: owned("request-id"),
        default_headers,
        capabilities: ProviderCapabilities {
            supports_streaming: true,
            supports_family_native_options: true,
            supports_provider_native_options: true,
        },
    };
    assert(headers_view(r.default_headers@) =~= seq![("anthropic-version"@, "2023-06-01"@)]);
    r
}

/// Built-in adapter for OpenAI response endpoints.
#[derive(Debug, Clone, Copy)]
pub struct OpenAiAdapter;

/// Built-in adapter for Anthropic's Messages API.
#[derive(Debug, Clone, Copy)]
pub struct AnthropicAdapter;

/// Built-in adapter for OpenRouter.
#[derive(Debug, Clone, Copy)]
pub struct OpenRouterAdapter;

/// Built-in adapter for self-hosted OpenAI-compatible response endpoints.
#[derive(Debug, Clone, Copy)]
pub struct GenericOpenAiCompatibleAdapter;

/// One of the built-in adapters.
#[derive(Debug, Clone, Copy)]
pub enum BuiltinAdapter {
    OpenAi(OpenAiAdapter),
    Anthropic(AnthropicAdapter),
    OpenRouter(OpenRouterAdapter),
    GenericOpenAiCompatible(GenericOpenAiCompatibleAdapter),
}

impl BuiltinAdapter {
    /// The provider kind the adapter implements.
    pub open spec fn spec_kind(&self) -> ProviderKind {
        match self {
            BuiltinAdapter::OpenAi(_) => ProviderKind::OpenAi,
            BuiltinAdapter::Anthropic(_) => ProviderKind::Anthropic,
            BuiltinAdapter::OpenRouter(_) => ProviderKind::OpenRouter,
            BuiltinAdapter::GenericOpenAiCompatible(_) => ProviderKind::GenericOpenAiCompatible,
        }
    }

    /// The provider kind the adapter implements.
    pub fn kind(&self) -> (r: ProviderKind)
        ensures
            r == self.spec_kind(),
    {
        match self {
            BuiltinAdapter::OpenAi(_) => ProviderKind::OpenAi,
            BuiltinAdapter::Anthropic(_) => ProviderKind::Anthropic,
            BuiltinAdapter::OpenRouter(_) => ProviderKind::OpenRouter,
            BuiltinAdapter::GenericOpenAiCompatible(_) => ProviderKind::GenericOpenAiCompatible,
        }
    }

    /// Static metadata of the adapter's provider kind.
    pub fn descriptor(&self) -> (r: ProviderDescriptor)
        ensures
            descriptor_view(r) == spec_descriptor(self.spec_kind()),
    {
        match self {
            BuiltinAdapter::OpenAi(_) => openai_descriptor(),
            BuiltinAdapter::Anthropic(_) => anthropic_descriptor(),
            BuiltinAdapter::OpenRouter(_) => openrouter_descriptor(),
            BuiltinAdapter::GenericOpenAiCompatible(_) => generic_openai_compatible_descriptor(),
        }
    }

    /// The default API base URL of the adapter's provider.
    pub fn default_base_url(&self) -> (r: String)
        ensures
            r@ == spec_descriptor(self.spec_kind()).default_base_url,
    {
        self.descriptor().default_base_url
    }

    /// The request endpoint path of the adapter's provider.
    pub fn endpoint_path(&self) -> (r: String)
        ensures
            r@ == spec_descriptor(self.spec_kind()).endpoint_path,
    {
        self.descriptor().endpoint_path
    }
}

/// The static surface of a provider adapter: its kind, its descriptor, and
/// the platform configuration a base URL yields for it.
pub trait ProviderAdapter {
    /// The provider kind the adapter implements.
    spec fn spec_adapter_kind(&self) -> ProviderKind;

    /// Returns the concrete provider kind implemented by this adapter.
    fn kind(&self) -> (r: ProviderKind)
        ensures
            r == self.spec_adapter_kind(),
    ;

    /// Returns static metadata for this provider kind.
    fn descriptor(&self) -> (r: ProviderDescriptor)
        ensures
            descriptor_view(r) == spec_descriptor(self.spec_adapter_kind()),
    ;

    /// The default API base URL of the adapter's provider.
    fn default_base_url(&self) -> (r: String)
        ensures
            r@ == spec_descriptor(self.spec_adapter_kind()).default_base_url,
    {
        self.descriptor().default_base_url
    }

    /// The request endpoint path of the adapter's provider.
    fn endpoint_path(&self) -> (r: String)
        ensures
            r@ == spec_descriptor(self.spec_adapter_kind()).endpoint_path,
    {
        self.descriptor().endpoint_path
    }

    /// The platform configuration of the adapter's provider at `base_url`.
    fn platform_config(&self, base_url: String) -> (r: Result<PlatformConfig, AdapterError>)
        ensures
            match spec_build_platform_config(
                self.spec_adapter_kind(),
                spec_descriptor(self.spec_adapter_kind()),
                base_url@,
            ) {
                Ok(c) => r matches Ok(p) && platform_view(p) == c,
                Err(m) => r matches Err(e) && e.kind == AdapterErrorKind::Validation && e.provider
                    == self.spec_adapter_kind() && e.operation == AdapterOperation::BuildHttpRequest
                    && e.message@ == m,
            },
    {
        let descriptor = self.descriptor();
        build_platform_config(self.kind(), &descriptor, base_url)
    }
}

impl ProviderAdapter for OpenAiAdapter {
    open spec fn spec_adapter_kind(&self) -> ProviderKind {
        ProviderKind::OpenAi
    }

    fn kind(&self) -> (r: ProviderKind) {
        ProviderKind::OpenAi
    }

    fn descriptor(&self) -> (r: ProviderDescriptor) {
        openai_descriptor()
    }
}

impl ProviderAdapter for AnthropicAdapter {
    open spec fn spec_adapter_kind(&self) -> ProviderKind {
        ProviderKind::Anthropic
    }

    fn kind(&self) -> (r: ProviderKind) {
        ProviderKind::Anthropic
    }

    fn descriptor(&self) -> (r: ProviderDescriptor) {
        anthropic_descriptor()
    }
}

impl ProviderAdapter for OpenRouterAdapter {
    open spec fn spec_adapter_kind(&self) -> ProviderKind {
        ProviderKind::OpenRouter
    }

    fn kind(&self) -> (r: ProviderKind) {
        ProviderKind::OpenRouter
    }

    fn descriptor(&self) -> (r: ProviderDescriptor) {
        openrouter_descriptor()
    }
}

impl ProviderAdapter for GenericOpenAiCompatibleAdapter {
    open spec fn spec_adapter_kind(&self) -> ProviderKind {
        ProviderKind::GenericOpenAiCompatible
    }

    fn kind(&self) -> (r: ProviderKind) {
        ProviderKind::GenericOpenAiCompatible
    }

    fn descriptor(&self) -> (r: ProviderDescriptor) {
        generic_openai_compatible_descriptor()
    }
}

impl ProviderAdapter for BuiltinAdapter {
    open spec fn spec_adapter_kind(&self) -> ProviderKind {
        self.spec_kind()
    }

    fn kind(&self) -> (r: ProviderKind) {
        BuiltinAdapter::kind(self)
    }

    fn descriptor(&self) -> (r: ProviderDescriptor) {
        BuiltinAdapter::descriptor(self)
    }
}

/// The built-in adapter for a provider kind.
pub fn adapter_for(kind: ProviderKind) -> (r: BuiltinAdapter)
    ensures
        r.spec_kind() == kind,
{
    match kind {
        ProviderKind::OpenAi => BuiltinAdapter::OpenAi(OpenAiAdapter),
        ProviderKind::Anthropic => BuiltinAdapter::Anthropic(AnthropicAdapter),
        ProviderKind::OpenRouter => BuiltinAdapter::OpenRouter(OpenRouterAdapter),
        ProviderKind::GenericOpenAiCompatible => BuiltinAdapter::GenericOpenAiCompatible(
            GenericOpenAiCompatibleAdapter,
        ),
    }
}

/// Every built-in adapter, one per provider kind.
pub fn all_builtin_adapters() -> (r: Vec<BuiltinAdapter>)
    ensures
        r@.len() == 4,
        r@[0].spec_kind() == ProviderKind::OpenAi,
        r@[1].spec_kind() == ProviderKind::Anthropic,
        r@[2].spec_kind() == ProviderKind::OpenRouter,
        r@[3].spec_kind() == ProviderKind::GenericOpenAiCompatible,
{
    let mut v: Vec<BuiltinAdapter> = Vec::new();
    v.push(adapter_for(ProviderKind::OpenAi));
    v.push(adapter_for(ProviderKind::Anthropic));
    v.push(adapter_for(ProviderKind::OpenRouter));
    v.push(adapter_for(ProviderKind::GenericOpenAiCompatible));
    v
}

/// What `reqwest::Url::parse` makes of a text: the URL's scheme and its
/// serialization (`Url`'s `Display`), or the text of the parse error.
pub uninterp spec fn spec_parse_url(text: Seq<char>) -> Result<(Seq<char>, Seq<char>), Seq<char>>;

/// `reqwest::Url::parse`: the parsed URL's scheme and serialization, or the
/// rendered parse error. The contract only names the result.
#[verifier::external_body]
fn parse_url(text: &str) -> (r: Result<(String, String), String>)
    ensures
        match r {
            Ok((scheme, serialized)) => spec_parse_url(text@) == Ok::<(Seq<char>, Seq<char>), Seq<char>>(
                (scheme@, serialized@),
            ),
            Err(e) => spec_parse_url(text@) == Err::<(Seq<char>, Seq<char>), Seq<char>>(e@),
        },
{
    match reqwest::Url::parse(text) {
        Ok(url) => Ok((url.scheme().to_string(), url.to_string())),
        Err(error) => Err(error.to_string()),
    }
}

/// The name `Debug` writes for a provider kind.
pub open spec fn kind_name(kind: ProviderKind) -> Seq<char> {
    match kind {
        ProviderKind::OpenAi => "OpenAi"@,
        ProviderKind::Anthropic => "Anthropic"@,
        ProviderKind::OpenRouter => "OpenRouter"@,
        ProviderKind::GenericOpenAiCompatible => "GenericOpenAiCompatible"@,
    }
}

/// The name `Debug` writes for a provider kind.
pub fn provider_kind_name(kind: ProviderKind) -> (r: &'static str)
    ensures
        r@ == kind_name(kind),
{
    match kind {
        ProviderKind::OpenAi => "OpenAi",
        ProviderKind::Anthropic => "Anthropic",
        ProviderKind::OpenRouter => "OpenRouter",
        ProviderKind::GenericOpenAiCompatible => "GenericOpenAiCompatible",
    }
}

/// `s` without its trailing `/` characters.
pub open spec fn strip_trailing_slashes(s: Seq<char>) -> Seq<char>
    decreases s.len(),
{
    if s.len() > 0 && s.last() == '/' {
        strip_trailing_slashes(s.drop_last())
    } else {
        s
    }
}

/// `str::trim_end_matches('/')`, as an owned string.
pub fn trim_trailing_slashes(s: &str) -> (r: String)
    ensures
        r@ == strip_trailing_slashes(s@),
{
    let chars = chars_of(s);
    let mut end: usize = chars.len();
    assert(s@.take(end as int) =~= s@);
    while end > 0 && chars[end - 1] == '/'
        invariant
            chars@ == s@,
            end <= chars.len(),
            strip_trailing_slashes(s@.take(end as int)) == strip_trailing_slashes(s@),
        decreases end,
    {
        assert(s@.take(end as int).drop_last() =~= s@.take(end - 1));
        end = end - 1;
    }
    assert(s@.subrange(0, end as int) =~= s@.take(end as int));
    substring(s, 0, end)
}

/// Model of [`PlatformConfig`].
pub struct SpecPlatformConfig {
    pub protocol: ProtocolKind,
    pub base_url: Seq<char>,
    pub auth_style: SpecAuthStyle,
    pub request_id_header: Seq<char>,
    pub default_headers: Seq<(Seq<char>, Seq<char>)>,
}

/// The model of a platform configuration.
pub open spec fn platform_view(p: PlatformConfig) -> SpecPlatformConfig {
    SpecPlatformConfig {
        protocol: p.protocol,
        base_url: p.base_url@,
        auth_style: auth_view(p.auth_style),
        request_id_header: p.request_id_header@,
        default_headers: headers_view(p.default_headers@),
    }
}

/// The platform configuration of a provider at `base_url`, or the message of
/// the validation error: the trimmed URL must be non-empty, parse, and use
/// `http` or `https`; the configuration keeps the descriptor's protocol, auth
/// and headers, with the URL's trailing slashes dropped.
pub open spec fn spec_build_platform_config(
    provider: ProviderKind,
    descriptor: SpecProviderDescriptor,
    base_url: Seq<char>,
) -> Result<SpecPlatformConfig, Seq<char>> {
    let trimmed = spec_trim(base_url);
    if trimmed.len() == 0 {
        Err("base_url is empty for provider "@ + kind_name(provider))
    } else {
        spec_platform_config_from_url(provider, descriptor, spec_parse_url(trimmed))
    }
}

/// The platform configuration that a parsed base URL (its scheme and
/// serialization, or the parse error's text) yields, or the message of the
/// validation error: the URL must have parsed and use `http` or `https`; the
/// configuration keeps the descriptor's protocol, auth and headers, with the
/// serialized URL's trailing slashes dropped.
pub open spec fn spec_platform_config_from_url(
    provider: ProviderKind,
    descriptor: SpecProviderDescriptor,
    parsed: Result<(Seq<char>, Seq<char>), Seq<char>>,
) -> Result<SpecPlatformConfig, Seq<char>> {
    match parsed {
        Err(e) => Err("base_url is not a valid URL for provider "@ + kind_name(provider) + ": "@ + e),
        Ok((scheme, serialized)) => if scheme != "http"@ && scheme != "https"@ {
            Err(
                "base_url must use http or https for provider "@ + kind_name(provider) + ", got scheme "@
                    + scheme,
            )
        } else {
            Ok(
                SpecPlatformConfig {
                    protocol: descriptor.protocol,
                    base_url: strip_trailing_slashes(serialized),
                    auth_style: descriptor.default_auth_style,
                    request_id_header: descriptor.default_request_id_header,
                    default_headers: descriptor.default_headers,
                },
            )
        },
    }
}

/// The model of a parsed URL: its scheme and serialization, or the error text.
pub open spec fn parsed_url_view(parsed: Result<(String, String), String>) -> Result<(Seq<char>, Seq<char>), Seq<char>> {
    match parsed {
        Ok((scheme, serialized)) => Ok((scheme@, serialized@)),
        Err(e) => Err(e@),
    }
}

/// A copy of an auth style.
fn copy_auth_style(a: &AuthStyle) -> (r: AuthStyle)
    ensures
        auth_view(r) == auth_view(*a),
{
    match a {
        AuthStyle::Bearer => AuthStyle::Bearer,
        AuthStyle::ApiKeyHeader(h) => AuthStyle::ApiKeyHeader(h.clone()),
        AuthStyle::Basic => AuthStyle::Basic,
        AuthStyle::Disabled => AuthStyle::Disabled,
    }
}

/// A copy of header pairs.
fn copy_headers(hs: &Vec<(String, String)>) -> (r: Vec<(String, String)>)
    ensures
        headers_view(r@) == headers_view(hs@),
{
    let mut out: Vec<(String, String)> = Vec::new();
    let mut i: usize = 0;
    while i < hs.len()
        invariant
            i <= hs.len(),
            headers_view(out@) == headers_view(hs@.take(i as int)),
        decreases hs.len() - i,
    {
        let ghost before = headers_view(out@);
        let name = hs[i].0.clone();
        let value = hs[i].1.clone();
        out.push((name, value));
        assert(hs@.take(i + 1) =~= hs@.take(i as int).push(hs@[i as int]));
        assert(headers_view(out@) =~= before.push((hs@[i as int].0@, hs@[i as int].1@)));
        assert(headers_view(out@) =~= headers_view(hs@.take(i + 1)));
        i = i + 1;
    }
    assert(hs@.take(hs.len() as int) =~= hs@);
    out
}

/// Validates `base_url` for `provider` and builds its platform configuration.
pub fn build_platform_config(
    provider: ProviderKind,
    descriptor: &ProviderDescriptor,
    base_url: String,
) -> (r: Result<PlatformConfig, AdapterError>)
    ensures
        match spec_build_platform_config(provider, descriptor_view(*descriptor), base_url@) {
            Ok(c) => r matches Ok(p) && platform_view(p) == c,
            Err(m) => r matches Err(e) && e.kind == AdapterErrorKind::Validation && e.provider == provider
                && e.operation == AdapterOperation::BuildHttpRequest && e.message@ == m,
        },
{
    let trimmed = trim(base_url.as_str());
    if trimmed.as_str().unicode_len() == 0 {
        let m = concat("base_url is empty for provider ", provider_kind_name(provider));
        return Err(
            AdapterError::new(AdapterErrorKind::Validation, provider, AdapterOperation::BuildHttpRequest, m.as_str()),
        );
    }
    platform_config_from_url(provider, descriptor, parse_url(trimmed.as_str()))
}

/// Builds the platform configuration of `provider` from a parsed base URL: its
/// scheme and serialization, or the parse error's text.
pub fn platform_config_from_url(
    provider: ProviderKind,
    descriptor: &ProviderDescriptor,
    parsed: Result<(String, String), String>,
) -> (r: Result<PlatformConfig, AdapterError>)
    ensures
        match spec_platform_config_from_url(provider, descriptor_view(*descriptor), parsed_url_view(parsed)) {
            Ok(c) => r matches Ok(p) && platform_view(p) == c,
            Err(m) => r matches Err(e) && e.kind == AdapterErrorKind::Validation && e.provider == provider
                && e.operation == AdapterOperation::BuildHttpRequest && e.message@ == m,
        },
{
    let name = provider_kind_name(provider);
    let (scheme, serialized) = match parsed {
        Ok(p) => p,
        Err(error) => {
            let head = concat3("base_url is not a valid URL for provider ", name, ": ");
            let m = concat(head.as_str(), error.as_str());
            return Err(
                AdapterError::new(AdapterErrorKind::Validation, provider, AdapterOperation::BuildHttpRequest, m.as_str()),
            );
        },
    };
    if !crate::text::str_equal(scheme.as_str(), "http") && !crate::text::str_equal(scheme.as_str(), "https") {
        let head = concat3("base_url must use http or https for provider ", name, ", got scheme ");
        let m = concat(head.as_str(), scheme.as_str());
        return Err(
            AdapterError::new(AdapterErrorKind::Validation, provider, AdapterOperation::BuildHttpRequest, m.as_str()),
        );
    }
    Ok(
        PlatformConfig {
            protocol: descriptor.protocol,
            base_url: trim_trailing_slashes(serialized.as_str()),
            auth_style: copy_auth_style(&descriptor.default_auth_style),
            request_id_header: descriptor.default_request_id_header.clone(),
            default_headers: copy_headers(&descriptor.default_headers),
        },
    )
}

impl BuiltinAdapter {
    /// The platform configuration of the adapter's provider at `base_url`.
    pub fn platform_config(&self, base_url: String) -> (r: Result<PlatformConfig, AdapterError>)
        ensures
            match spec_build_platform_config(self.spec_kind(), spec_descriptor(self.spec_kind()), base_url@) {
                Ok(c) => r matches Ok(p) && platform_view(p) == c,
                Err(m) => r matches Err(e) && e.kind == AdapterErrorKind::Validation && e.provider
                    == self.spec_kind() && e.operation == AdapterOperation::BuildHttpRequest && e.message@ == m,
            },
    {
        let descriptor = self.descriptor();
        build_platform_config(self.kind(), &descriptor, base_url)
    }
}

/// The family translation that plans a provider's requests.
#[derive(Debug, Clone, Copy, PartialEq, Eq, Structural)]
pub enum PlanRoute {
    /// The OpenAI-compatible codec, for OpenAI or a generic compatible endpoint.
    OpenAiCompatible(ProviderKind),
    /// The OpenAI-compatible codec with the OpenRouter refinement.
    OpenRouter,
    /// The Anthropic codec with the Anthropic refinement.
    Anthropic,
}

/// The name `Debug` writes for a provider family.
pub open spec fn family_name(family: ProviderFamilyId) -> Seq<char> {
    match family {
        ProviderFamilyId::OpenAiCompatible => "OpenAiCompatible"@,
        ProviderFamilyId::Anthropic => "Anthropic"@,
    }
}

/// The name `Debug` writes for a provider family.
pub fn provider_family_name(family: ProviderFamilyId) -> (r: &'static str)
    ensures
        r@ == family_name(family),
{
    match family {
        ProviderFamilyId::OpenAiCompatible => "OpenAiCompatible",
        ProviderFamilyId::Anthropic => "Anthropic",
    }
}

/// Which translation plans requests for `provider` speaking `family`, or the
/// message of the protocol violation when the pair is not supported.
pub open spec fn spec_plan_request_with_layering(provider: ProviderKind, family: ProviderFamilyId) -> Result<PlanRoute, Seq<char>> {
    match (family, provider) {
        (ProviderFamilyId::OpenAiCompatible, ProviderKind::OpenAi) => Ok(PlanRoute::OpenAiCompatible(provider)),
        (ProviderFamilyId::OpenAiCompatible, ProviderKind::GenericOpenAiCompatible) => Ok(
            PlanRoute::OpenAiCompatible(provider),
        ),
        (ProviderFamilyId::OpenAiCompatible, ProviderKind::OpenRouter) => Ok(PlanRoute::OpenRouter),
        (ProviderFamilyId::Anthropic, ProviderKind::Anthropic) => Ok(PlanRoute::Anthropic),
        _ => Err(
            "adapter "@ + kind_name(provider) + " does not support planning with provider family "@
                + family_name(family),
        ),
    }
}

/// Chooses the request translation for a provider and family; an unsupported
/// pair is a protocol violation of the planning stage.
pub fn plan_request_with_layering(provider: ProviderKind, family: ProviderFamilyId) -> (r: Result<PlanRoute, AdapterError>)
    ensures
        match spec_plan_request_with_layering(provider, family) {
            Ok(route) => r matches Ok(x) && x == route,
            Err(m) => r matches Err(e) && e.kind == AdapterErrorKind::ProtocolViolation && e.provider
                == provider && e.operation == AdapterOperation::PlanRequest && e.message@ == m
                && e.spec_source() is None,
        },
{
    match (family, provider) {
        (ProviderFamilyId::OpenAiCompatible, ProviderKind::OpenAi) => Ok(PlanRoute::OpenAiCompatible(provider)),
        (ProviderFamilyId::OpenAiCompatible, ProviderKind::GenericOpenAiCompatible) => Ok(
            PlanRoute::OpenAiCompatible(provider),
        ),
        (ProviderFamilyId::OpenAiCompatible, ProviderKind::OpenRouter) => Ok(PlanRoute::OpenRouter),
        (ProviderFamilyId::Anthropic, ProviderKind::Anthropic) => Ok(PlanRoute::Anthropic),
        _ => {
            let head = concat3("adapter ", provider_kind_name(provider), " does not support planning with provider family ");
            let m = concat(head.as_str(), provider_family_name(family));
            Err(AdapterError::new(AdapterErrorKind::ProtocolViolation, provider, AdapterOperation::PlanRequest, m.as_str()))
        },
    }
}

/// Whether `r` is `error` re-attributed to `provider` with the family's and the
/// refinement's decoded error details layered over it: each field the merged
/// details hold replaces the error's own; stage, source, status and request id stay.
pub open spec fn spec_layered_failure(
    error: AdapterError,
    provider: ProviderKind,
    family_info: Option<ProviderErrorInfo>,
    refinement_info: Option<ProviderErrorInfo>,
    r: AdapterError,
) -> bool {
    let info = spec_layered_error_info(opt_info_view(family_info), opt_info_view(refinement_info));
    &&& r.kind == match info {
        Some(i) => match i.kind {
            Some(k) => k,
            None => error.kind,
        },
        None => error.kind,
    }
    &&& r.message@ == match info {
        Some(i) => match i.message {
            Some(m) => m,
            None => error.message@,
        },
        None => error.message@,
    }
    &&& opt_string_view(r.provider_code) == match info {
        Some(i) => overlay_opt(opt_string_view(error.provider_code), i.provider_code),
        None => opt_string_view(error.provider_code),
    }
    &&& r.provider == provider
    &&& r.operation == error.operation
    &&& r.spec_source() == error.spec_source()
    &&& r.status_code == error.status_code
    &&& r.request_id == error.request_id
}

/// The error a failed family decode surfaces from an adapter: re-attributed to
/// the adapter's provider, with the family's and the refinement's decoded error
/// details layered over it.
pub fn layer_decode_failure(
    error: AdapterError,
    provider: ProviderKind,
    family_info: Option<ProviderErrorInfo>,
    refinement_info: Option<ProviderErrorInfo>,
) -> (r: AdapterError)
    ensures
        spec_layered_failure(error, provider, family_info, refinement_info, r),
{
    apply_layered_error_info(rebind_adapter_error_provider(error, provider), family_info, refinement_info)
}

/// The response an adapter returns from its layers: the refinement's override
/// when it gives one; else the family decode's response; else the family
/// decode's error, re-attributed to `provider` with the family's and the
/// refinement's decoded error details of the body layered over it.
pub fn decode_response_with_layering(
    provider: ProviderKind,
    override_result: Option<Result<Response, AdapterError>>,
    family_result: Result<Response, AdapterError>,
    family_info: Option<ProviderErrorInfo>,
    refinement_info: Option<ProviderErrorInfo>,
) -> (r: Result<Response, AdapterError>)
    ensures
        match override_result {
            Some(o) => r == o,
            None => match family_result {
                Ok(resp) => r == Ok::<Response, AdapterError>(resp),
                Err(e) => r matches Err(f) && spec_layered_failure(e, provider, family_info, refinement_info, f),
            },
        },
{
    match override_result {
        Some(result) => result,
        None => match family_result {
            Ok(response) => Ok(response),
            Err(error) => Err(layer_decode_failure(error, provider, family_info, refinement_info)),
        },
    }
}

/// Every built-in adapter can plan requests in its own descriptor's family.
pub proof fn law_builtin_adapters_plan_in_their_family(kind: ProviderKind)
    ensures
        spec_plan_request_with_layering(kind, spec_descriptor(kind).family) is Ok,
{
}

/// A configured base URL never ends with `/`, and dropping trailing slashes
/// twice is dropping them once.
pub proof fn law_base_url_has_no_trailing_slash(s: Seq<char>)
    ensures
        strip_trailing_slashes(s).len() > 0 ==> strip_trailing_slashes(s).last() != '/',
        strip_trailing_slashes(strip_trailing_slashes(s)) == strip_trailing_slashes(s),
        strip_trailing_slashes(s).len() <= s.len(),
    decreases s.len(),
{
    if s.len() > 0 && s.last() == '/' {
        law_base_url_has_no_trailing_slash(s.drop_last());
    }
}

/// Each provider kind's descriptor names that kind, and the adapter looked up
/// for a kind reports it.
pub proof fn law_descriptor_matches_kind(kind: ProviderKind)
    ensures
        spec_descriptor(kind).kind == kind,
        kind == ProviderKind::Anthropic <==> spec_descriptor(kind).family == ProviderFamilyId::Anthropic,
        kind == ProviderKind::Anthropic <==> spec_descriptor(kind).protocol == ProtocolKind::Anthropic,
{
}

} // verus!
