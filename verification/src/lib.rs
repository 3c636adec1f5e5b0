//! Expansion of a typed function after type inference.
//!
//! Inference leaves unification variables in the types of a function, and a
//! substitution that solves them. Expansion walks the function once and makes
//! it ready for the passes that follow: every variable is replaced by its
//! solution, every applied type is given its kind, every use of a variable
//! becomes a copy or a move by the kind of its type, and every number literal
//! gets the width of its type or is reported as too large.
//!
//! The tree and its models are in [`types`] and [`syntax`], what inference
//! hands over in [`context`], and the pass itself in [`expand`]. What the pass
//! computes is defined in [`semantics`], and what holds of it is stated in
//! [`laws`].
pub mod accumulation;
pub mod context;
pub mod depth;
pub mod expand;
pub mod expression_walker;
pub mod idempotence;
pub mod kinds;
pub mod known;
pub mod laws;
pub mod literal_resolver;
pub mod messages;
pub mod node_walker;
pub mod pattern_expander;
pub mod semantics;
pub mod sequence_walker;
pub mod settled;
pub mod syntax;
pub mod totality;
pub mod type_expander;
pub mod types;
pub mod use_rewriter;
