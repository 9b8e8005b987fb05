//! Normalized adapter-layer error types.
use vstd::prelude::*;

use crate::providers::adapter::{kind_name, provider_kind_name};
use crate::text::{concat, concat3, is_blank_str, spec_trim, trim};
use crate::types::identity::ProviderId;

verus! {

/// Adapter pipeline stage that produced an [`AdapterError`].
#[derive(Debug, Clone, Copy, PartialEq, Eq, Structural)]
pub enum AdapterOperation {
    /// Translating a canonical request into a provider request.
    PlanRequest,
    /// Decoding a provider response payload.
    DecodeResponse,
    /// Building an HTTP request or platform configuration.
    BuildHttpRequest,
    /// Converting a raw provider stream event into canonical stream events.
    ProjectStreamEvent,
    /// Finalizing a provider stream after input exhaustion.
    FinalizeStream,
}

/// Category of failure surfaced by a provider adapter.
#[derive(Debug, Clone, Copy, PartialEq, Eq, Structural)]
pub enum AdapterErrorKind {
    /// Caller input is invalid for the provider contract.
    Validation,
    /// Provider request encoding failed.
    Encode,
    /// Provider response decoding failed.
    Decode,
    /// Provider payload order or shape violated an expected protocol contract.
    ProtocolViolation,
    /// The requested feature is not supported by the provider contract.
    UnsupportedFeature,
    /// The provider returned an application-level upstream error.
    Upstream,
    /// Transport integration failed before or around provider processing.
    Transport,
}

/// Typed provider-layer error details extracted before runtime normalization.
#[derive(Debug, Clone, PartialEq, Eq)]
pub struct ProviderErrorInfo {
    /// Provider-specific error code, when available.
    pub provider_code: Option<String>,
    /// Human-readable provider error message, when available.
    pub message: Option<String>,
    /// Adapter-layer error kind inferred from the provider error payload.
    pub kind: Option<AdapterErrorKind>,
}

/// Model of [`ProviderErrorInfo`].
pub struct SpecProviderErrorInfo {
    pub provider_code: Option<Seq<char>>,
    pub message: Option<Seq<char>>,
    pub kind: Option<AdapterErrorKind>,
}

/// The view of an optional owned string.
pub open spec fn opt_string_view(o: Option<String>) -> Option<Seq<char>> {
    match o {
        Some(s) => Some(s@),
        None => None,
    }
}

/// `overlay` where it holds a value, else `base`.
pub open spec fn overlay_opt<T>(base: Option<T>, overlay: Option<T>) -> Option<T> {
    if overlay is Some {
        overlay
    } else {
        base
    }
}

impl View for ProviderErrorInfo {
    type V = SpecProviderErrorInfo;

    open spec fn view(&self) -> SpecProviderErrorInfo {
        SpecProviderErrorInfo {
            provider_code: opt_string_view(self.provider_code),
            message: opt_string_view(self.message),
            kind: self.kind,
        }
    }
}

impl SpecProviderErrorInfo {
    /// Field-by-field merge in which every field the overlay holds wins.
    pub open spec fn refined_with(self, overlay: SpecProviderErrorInfo) -> SpecProviderErrorInfo {
        SpecProviderErrorInfo {
            provider_code: overlay_opt(self.provider_code, overlay.provider_code),
            message: overlay_opt(self.message, overlay.message),
            kind: overlay_opt(self.kind, overlay.kind),
        }
    }
}

impl Default for ProviderErrorInfo {
    fn default() -> (r: Self)
        ensures
            r.provider_code is None,
            r.message is None,
            r.kind is None,
    {
        ProviderErrorInfo { provider_code: None, message: None, kind: None }
    }
}

impl ProviderErrorInfo {
    /// Merges provider-overlay fields over family-decoded fields.
    pub fn refined_with(self, overlay: Self) -> (r: Self)
        ensures
            r@ == self@.refined_with(overlay@),
    {
        let mut base = self;
        if overlay.provider_code.is_some() {
            base.provider_code = overlay.provider_code;
        }
        if overlay.message.is_some() {
            base.message = overlay.message;
        }
        if overlay.kind.is_some() {
            base.kind = overlay.kind;
        }
        base
    }
}

/// The family-decoded details refined by the provider's, where both exist.
pub open spec fn spec_layered_error_info(
    family_info: Option<SpecProviderErrorInfo>,
    refinement_info: Option<SpecProviderErrorInfo>,
) -> Option<SpecProviderErrorInfo> {
    match (family_info, refinement_info) {
        (Some(f), Some(r)) => Some(f.refined_with(r)),
        (Some(f), None) => Some(f),
        (None, Some(r)) => Some(r),
        (None, None) => None,
    }
}

/// The view of optional error details.
pub open spec fn opt_info_view(o: Option<ProviderErrorInfo>) -> Option<SpecProviderErrorInfo> {
    match o {
        Some(i) => Some(i@),
        None => None,
    }
}

/// Combines the error details a family codec and a provider refinement decoded
/// from one body: the refinement's fields win where both are present.
pub fn layered_error_info(
    family_info: Option<ProviderErrorInfo>,
    refinement_info: Option<ProviderErrorInfo>,
) -> (r: Option<ProviderErrorInfo>)
    ensures
        opt_info_view(r) == spec_layered_error_info(
            opt_info_view(family_info),
            opt_info_view(refinement_info),
        ),
{
    match (family_info, refinement_info) {
        (Some(f), Some(r)) => Some(f.refined_with(r)),
        (Some(f), None) => Some(f),
        (None, Some(r)) => Some(r),
        (None, None) => None,
    }
}

/// Normalized adapter-layer error used by the runtime.
#[derive(Debug)]
pub struct AdapterError {
    /// High-level adapter error category.
    pub kind: AdapterErrorKind,
    /// Provider that produced the error.
    pub provider: ProviderId,
    /// Adapter pipeline stage that failed.
    pub operation: AdapterOperation,
    /// Human-readable error message.
    pub message: String,
    /// Rendered text of the underlying cause, when one was preserved.
    pub source: Option<String>,
    /// HTTP status code returned by the provider, when available.
    pub status_code: Option<u16>,
    /// Provider request identifier, when available.
    pub request_id: Option<String>,
    /// Provider-specific error code, when available.
    pub provider_code: Option<String>,
}

/// Trimmed text, or nothing when it is blank.
pub open spec fn spec_normalize_metadata(value: Seq<char>) -> Option<Seq<char>> {
    if spec_trim(value).len() == 0 {
        None
    } else {
        Some(spec_trim(value))
    }
}

/// Trims metadata text, mapping blank text to `None`.
pub fn normalize_metadata(value: String) -> (r: Option<String>)
    ensures
        opt_string_view(r) == spec_normalize_metadata(value@),
{
    if is_blank_str(value.as_str()) {
        None
    } else {
        Some(trim(value.as_str()))
    }
}

impl AdapterError {
    /// The preserved cause's text, as a model.
    pub open spec fn spec_source(&self) -> Option<Seq<char>> {
        opt_string_view(self.source)
    }

    /// Creates an adapter error without a source error.
    pub fn new(
        kind: AdapterErrorKind,
        provider: ProviderId,
        operation: AdapterOperation,
        message: &str,
    ) -> (r: Self)
        ensures
            r.kind == kind,
            r.provider == provider,
            r.operation == operation,
            r.message@ == message@,
            r.spec_source() is None,
            r.status_code is None,
            r.request_id is None,
            r.provider_code is None,
    {
        Self::build(kind, provider, operation, message, None)
    }

    /// Creates an adapter error and preserves the text of an underlying cause.
    pub fn with_source(
        kind: AdapterErrorKind,
        provider: ProviderId,
        operation: AdapterOperation,
        message: &str,
        source: String,
    ) -> (r: Self)
        ensures
            r.kind == kind,
            r.provider == provider,
            r.operation == operation,
            r.message@ == message@,
            r.spec_source() == Some(source@),
            r.status_code is None,
            r.request_id is None,
            r.provider_code is None,
    {
        Self::build(kind, provider, operation, message, Some(source))
    }

    /// Attaches an HTTP status code to the error.
    pub fn with_status_code(self, status_code: u16) -> (r: Self)
        ensures
            r.status_code == Some(status_code),
            r.kind == self.kind,
            r.provider == self.provider,
            r.operation == self.operation,
            r.message == self.message,
            r.spec_source() == self.spec_source(),
            r.request_id == self.request_id,
            r.provider_code == self.provider_code,
    {
        let mut e = self;
        e.status_code = Some(status_code);
        e
    }

    /// Attaches a provider request identifier; blank values become `None`.
    pub fn with_request_id(self, request_id: String) -> (r: Self)
        ensures
            opt_string_view(r.request_id) == spec_normalize_metadata(request_id@),
            r.kind == self.kind,
            r.provider == self.provider,
            r.operation == self.operation,
            r.message == self.message,
            r.spec_source() == self.spec_source(),
            r.status_code == self.status_code,
            r.provider_code == self.provider_code,
    {
        let mut e = self;
        e.request_id = normalize_metadata(request_id);
        e
    }

    /// Attaches a provider-specific error code; blank values become `None`.
    pub fn with_provider_code(self, provider_code: String) -> (r: Self)
        ensures
            opt_string_view(r.provider_code) == spec_normalize_metadata(provider_code@),
            r.kind == self.kind,
            r.provider == self.provider,
            r.operation == self.operation,
            r.message == self.message,
            r.spec_source() == self.spec_source(),
            r.status_code == self.status_code,
            r.request_id == self.request_id,
    {
        let mut e = self;
        e.provider_code = normalize_metadata(provider_code);
        e
    }

    /// The text of the preserved cause, if one exists.
    pub fn source_ref(&self) -> (r: Option<&str>)
        ensures
            match r {
                Some(s) => self.spec_source() == Some(s@),
                None => self.spec_source() is None,
            },
    {
        match &self.source {
            Some(s) => Some(s.as_str()),
            None => None,
        }
    }

    fn build(
        kind: AdapterErrorKind,
        provider: ProviderId,
        operation: AdapterOperation,
        message: &str,
        source: Option<String>,
    ) -> (r: Self)
        ensures
            r.kind == kind,
            r.provider == provider,
            r.operation == operation,
            r.message@ == message@,
            r.spec_source() == opt_string_view(source),
            r.status_code is None,
            r.request_id is None,
            r.provider_code is None,
    {
        AdapterError {
            kind,
            provider,
            operation,
            message: message.to_string(),
            source,
            status_code: None,
            request_id: None,
            provider_code: None,
        }
    }

    /// The error re-attributed to `provider`, everything else kept.
    pub fn rebind_provider(self, provider: ProviderId) -> (r: Self)
        ensures
            r.provider == provider,
            r.kind == self.kind,
            r.operation == self.operation,
            r.message == self.message,
            r.spec_source() == self.spec_source(),
            r.status_code == self.status_code,
            r.request_id == self.request_id,
            r.provider_code == self.provider_code,
    {
        let mut e = self;
        e.provider = provider;
        e
    }

    /// The error with layered provider details applied: each field the merged
    /// details hold replaces the error's own.
    pub fn apply_error_info(self, info: Option<ProviderErrorInfo>) -> (r: Self)
        ensures
            match opt_info_view(info) {
                Some(i) => {
                    &&& r.kind == match i.kind {
                        Some(k) => k,
                        None => self.kind,
                    }
                    &&& r.message@ == match i.message {
                        Some(m) => m,
                        None => self.message@,
                    }
                    &&& opt_string_view(r.provider_code) == overlay_opt(
                        opt_string_view(self.provider_code),
                        i.provider_code,
                    )
                },
                None => r.kind == self.kind && r.message == self.message && r.provider_code
                    == self.provider_code,
            },
            r.provider == self.provider,
            r.operation == self.operation,
            r.spec_source() == self.spec_source(),
            r.status_code == self.status_code,
            r.request_id == self.request_id,
    {
        let mut e = self;
        match info {
            Some(i) => {
                match i.kind {
                    Some(k) => {
                        e.kind = k;
                    },
                    None => {},
                }
                match i.message {
                    Some(m) => {
                        e.message = m;
                    },
                    None => {},
                }
                match i.provider_code {
                    Some(c) => {
                        e.provider_code = Some(c);
                    },
                    None => {},
                }
            },
            None => {},
        }
        e
    }
}

/// Applies the layered family and refinement details of a failed decode to its error.
pub fn apply_layered_error_info(
    error: AdapterError,
    family_info: Option<ProviderErrorInfo>,
    refinement_info: Option<ProviderErrorInfo>,
) -> (r: AdapterError)
    ensures
        ({
            let info = spec_layered_error_info(
                opt_info_view(family_info),
                opt_info_view(refinement_info),
            );
            &&& r.kind == match info {
                Some(i) => match i.kind {
                    Some(k) => k,
                    None => error.kind,
                },
                None => error.kind,
            }
            &&& r.message@ == match info {
                Some(i) => match i.message {
                    Some(m) => m,
                    None => error.message@,
                },
                None => error.message@,
            }
            &&& opt_string_view(r.provider_code) == match info {
                Some(i) => overlay_opt(opt_string_view(error.provider_code), i.provider_code),
                None => opt_string_view(error.provider_code),
            }
        }),
        r.provider == error.provider,
        r.operation == error.operation,
        r.spec_source() == error.spec_source(),
        r.status_code == error.status_code,
        r.request_id == error.request_id,
{
    let info = layered_error_info(family_info, refinement_info);
    error.apply_error_info(info)
}

/// The error re-attributed to `provider`.
pub fn rebind_adapter_error_provider(error: AdapterError, provider: ProviderId) -> (r: AdapterError)
    ensures
        r.provider == provider,
        r.kind == error.kind,
        r.operation == error.operation,
        r.message == error.message,
        r.spec_source() == error.spec_source(),
        r.status_code == error.status_code,
        r.request_id == error.request_id,
        r.provider_code == error.provider_code,
{
    error.rebind_provider(provider)
}

/// The name `Debug` writes for an adapter stage.
pub open spec fn operation_name(op: AdapterOperation) -> Seq<char> {
    match op {
        AdapterOperation::PlanRequest => "PlanRequest"@,
        AdapterOperation::DecodeResponse => "DecodeResponse"@,
        AdapterOperation::BuildHttpRequest => "BuildHttpRequest"@,
        AdapterOperation::ProjectStreamEvent => "ProjectStreamEvent"@,
        AdapterOperation::FinalizeStream => "FinalizeStream"@,
    }
}

/// The name `Debug` writes for an adapter stage.
pub fn adapter_operation_name(op: AdapterOperation) -> (r: &'static str)
    ensures
        r@ == operation_name(op),
{
    match op {
        AdapterOperation::PlanRequest => "PlanRequest",
        AdapterOperation::DecodeResponse => "DecodeResponse",
        AdapterOperation::BuildHttpRequest => "BuildHttpRequest",
        AdapterOperation::ProjectStreamEvent => "ProjectStreamEvent",
        AdapterOperation::FinalizeStream => "FinalizeStream",
    }
}

/// The name `Debug` writes for an adapter error category.
pub open spec fn error_kind_name(kind: AdapterErrorKind) -> Seq<char> {
    match kind {
        AdapterErrorKind::Validation => "Validation"@,
        AdapterErrorKind::Encode => "Encode"@,
        AdapterErrorKind::Decode => "Decode"@,
        AdapterErrorKind::ProtocolViolation => "ProtocolViolation"@,
        AdapterErrorKind::UnsupportedFeature => "UnsupportedFeature"@,
        AdapterErrorKind::Upstream => "Upstream"@,
        AdapterErrorKind::Transport => "Transport"@,
    }
}

/// The name `Debug` writes for an adapter error category.
pub fn adapter_error_kind_name(kind: AdapterErrorKind) -> (r: &'static str)
    ensures
        r@ == error_kind_name(kind),
{
    match kind {
        AdapterErrorKind::Validation => "Validation",
        AdapterErrorKind::Encode => "Encode",
        AdapterErrorKind::Decode => "Decode",
        AdapterErrorKind::ProtocolViolation => "ProtocolViolation",
        AdapterErrorKind::UnsupportedFeature => "UnsupportedFeature",
        AdapterErrorKind::Upstream => "Upstream",
        AdapterErrorKind::Transport => "Transport",
    }
}

impl AdapterError {
    /// The one-line rendering of the error: `<provider>::<stage>::<kind>: <message>`.
    pub open spec fn spec_display(&self) -> Seq<char> {
        kind_name(self.provider) + "::"@ + operation_name(self.operation) + "::"@ + error_kind_name(self.kind)
            + ": "@ + self.message@
    }

    /// Renders the error as `<provider>::<stage>::<kind>: <message>`.
    pub fn to_display_string(&self) -> (r: String)
        ensures
            r@ == self.spec_display(),
    {
        let a = concat3(provider_kind_name(self.provider), "::", adapter_operation_name(self.operation));
        let b = concat3(a.as_str(), "::", adapter_error_kind_name(self.kind));
        let c = concat3(b.as_str(), ": ", self.message.as_str());
        assert(c@ =~= self.spec_display());
        c
    }
}

/// Refinement lets every field the overlay holds win, keeps the base field
/// where the overlay has none, and refining with an empty overlay changes nothing.
pub proof fn law_refined_with_overlay_wins(base: SpecProviderErrorInfo, overlay: SpecProviderErrorInfo)
    ensures
        overlay.provider_code is Some ==> base.refined_with(overlay).provider_code == overlay.provider_code,
        overlay.message is Some ==> base.refined_with(overlay).message == overlay.message,
        overlay.kind is Some ==> base.refined_with(overlay).kind == overlay.kind,
        overlay.provider_code is None ==> base.refined_with(overlay).provider_code == base.provider_code,
        overlay.message is None ==> base.refined_with(overlay).message == base.message,
        overlay.kind is None ==> base.refined_with(overlay).kind == base.kind,
        base.refined_with(SpecProviderErrorInfo { provider_code: None, message: None, kind: None }) == base,
        base.refined_with(overlay).refined_with(overlay) == base.refined_with(overlay),
{
}

/// Layered error details exist exactly when the family or the refinement
/// decoded some, and a lone layer passes through unchanged.
pub proof fn law_layered_error_info(
    family_info: Option<SpecProviderErrorInfo>,
    refinement_info: Option<SpecProviderErrorInfo>,
)
    ensures
        spec_layered_error_info(family_info, refinement_info) is None <==> (family_info is None
            && refinement_info is None),
        refinement_info is None ==> spec_layered_error_info(family_info, refinement_info) == family_info,
        family_info is None ==> spec_layered_error_info(family_info, refinement_info) == refinement_info,
{
}

} // verus!
