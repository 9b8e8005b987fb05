//! Raw provider stream frames and the canonical events projected from them.

pub mod canonical;
mod keys;
pub mod projector;
pub mod raw;

pub use canonical::{
    CanonicalStreamEnvelope, CanonicalStreamEvent, SpecCanonicalStreamEvent, SpecItemEnd,
    SpecItemStart, StreamOutputItemEnd, StreamOutputItemStart,
};
pub use projector::CanonicalStreamProjector;
pub use raw::{ProviderRawStreamEvent, RawStreamPayload, RawStreamTransport, SpecRawStreamPayload};
