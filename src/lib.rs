//! Code generation for a proof-oriented functional target language: a typed
//! program and its type dictionary become a laid-out text document.
pub mod ast;
pub mod doc;
pub mod items;
pub mod laws;
pub mod names;
pub mod ops;
pub mod statements;
pub mod translate;
pub mod types;
