//! A verified core for a wikitext platform.
//!
//! The centerpiece is the markup parsing engine: a rule registry, an
//! ordered-choice dispatcher, a recursive element builder and a
//! representative styled-container rule, turning a flat token stream into
//! a structured element tree with best-effort recovery. Every function of
//! the engine is proved equal to a specification-level reference parser,
//! so totality, fallback behaviour and ordered-choice determinism are
//! theorems, not conventions.
//!
//! Around the engine stand the verified decision kernels of the service
//! layer: revision update-task determination, message validation, page
//! query planning, and slug normalization.

pub mod tokens;
pub mod tree;
pub mod diagnostics;
pub mod head;
pub mod rules;
pub mod semantics;
pub mod consume;
pub mod laws;
pub mod text;
pub mod revision;
pub mod message;
pub mod page_query;
pub mod parent;
pub mod normalize;
