//! Homotopy type theory primitives with verified contracts: cubical types,
//! paths, identity types, transport, homotopies, equivalences, higher
//! inductive types and compiler-verification helpers.

pub mod text;
pub mod interval;
pub mod cubical;
pub mod path;
pub mod identity;
pub mod transport;
pub mod homotopy;
pub mod equivalence;
pub mod hots;
pub mod hott_compiler;
pub mod prelude;
