//! Duplicate the bodiless methods of a trait declaration into a
//! declaration-only variant and a test-only variant whose synthesized body
//! fails loudly with the method's name.
//!
//! The rewriting rules and the placeholder synthesizer are verified here
//! over models of the syntax they inspect; see [`ast`] for the models,
//! [`stubs`] for the synthesizer and [`rewrite`] for the rewriting engine.
pub mod ast;
pub mod rewrite;
pub mod stubs;

pub use rewrite::test_stubs;
