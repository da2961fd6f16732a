//! Discovery of module declarations hidden inside conditional-compilation
//! macros (`cfg_if!`, `cfg_match!`) and of `#[path = "..."]` overrides.

pub mod token;
pub mod items;
pub mod error;
pub mod attr;
pub mod cfg_if;
pub mod cfg_match;
pub mod visitor;
pub mod laws;
pub mod decl;
