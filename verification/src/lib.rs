//! Matched bindings across a link boundary.
//!
//! An interface is declared once. From that declaration the interface
//! generator emits one forwarding function per method, each calling a symbol
//! that some other compilation unit has to define. The binder turns an
//! implementation of the interface into the exported functions that carry
//! exactly those symbols. Both sides derive the symbol names with the same
//! naming function, so that the names agree whenever the two sides are
//! configured with the same unit identity.
//!
//! All generators are functions from plain values to plain values: a
//! declaration is a value of [`decl::TraitDecl`] or [`decl::ImplBlock`], the
//! options are the text between the brackets of the attribute, and what comes
//! out is a structured value that renders to source text.
//!
//! - [`config`]: the options of the two generators.
//! - [`symbol`]: the names that both generators derive.
//! - [`decl`]: declarations and implementation blocks.
//! - [`bind`]: a method bound to its symbol; the text of a signature.
//! - [`interface`]: the interface generator.
//! - [`binder`]: the binder.
//! - [`laws`]: what holds of the two generators together.
//! - [`example`]: a worked example.
//! - [`text`]: text as sequences of characters.

pub mod bind;
pub mod binder;
pub mod config;
pub mod decl;
pub mod example;
pub mod interface;
pub mod laws;
pub mod symbol;
pub mod text;
