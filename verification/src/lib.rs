//! A boundary layer that lets a native function be invoked by a foreign host
//! runtime: the host hands over an event object and a context object, the
//! layer converts the event into a canonical JSON-compatible [`Value`],
//! snapshots the context's metadata into a [`LambdaContext`], calls the
//! native handler once, and converts the result (or its failure text) back
//! into a form the host understands.
//!
//! The core here is portable: it works entirely on plain values, and the
//! embedding-specific marshalling (host objects in, host objects out) stands
//! outside it and hands it those values.

mod adapter;
mod context;
mod errors;
mod registry;
mod value;

pub use adapter::LambdaResult;
pub use adapter::handler;
pub use context::LambdaContext;
pub use errors::ContextError;
pub use errors::ConversionError;
pub use errors::Diagnostic;
pub use errors::HandlerError;
pub use errors::HostException;
pub use errors::translate;
pub use registry::ModuleRegistry;
pub use registry::lookup_spec;
pub use registry::lemma_lookup_finds_registered;
pub use value::Value;
pub use value::val_equiv;
pub use value::lemma_val_equiv_reflexive;
pub use value::lemma_val_equiv_symmetric;
pub use value::lemma_val_equiv_transitive;
pub use value::has_pair;
pub use value::has_pair_rev;
pub use value::pairs_covered;
pub use value::pairs_covered_rev;
