//! Registration and dispatch synthesis for contract methods.
//!
//! A contract declares methods, each tagged with an opcode, and one entry
//! point. The [`Registry`] records which opcode belongs to which handler, the
//! registrar ([`method`]) validates a declaration and derives its packed
//! argument type, and the synthesizer ([`main`], [`synthesize`]) closes the
//! registry and produces the dispatching entry point.
//!
//! Beware: the entry point that [`main`] produces is lenient. On an opcode that
//! no method registered it sends the default value of its result type, and
//! signals no error across the call boundary. [`synthesize`] with
//! [`FallbackPolicy::Strict`] produces one that fails instead.
pub mod decl;
pub mod emit;
pub mod error;
pub mod laws;
pub mod literal;
pub mod registrar;
pub mod registry;
pub mod synth;
pub mod text;

pub use decl::{AttributeArg, Binding, EntryDecl, Literal, MethodDecl, Param};
pub use error::Error;
pub use literal::{has_literal_shape, read_opcode_literal};
pub use registrar::{declared_opcode, method, register_method, PackedMethod, PackedType, Transformed};
pub use registry::{Entry, EntryView, Registry};
pub use synth::{main, synthesize, Action, FallbackPolicy, GeneratedEntry};
