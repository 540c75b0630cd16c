//! A front end for a small object-oriented scripting language with a Ruby-like surface
//! syntax: a tokenizer that turns characters into tokens, and a recursive-descent
//! parser that turns tokens into a syntax tree.
//!
//! Every executable function states, over mathematical models of its data, what
//! it returns; the grammar itself is a set of specification functions on token streams.

pub mod ast;
pub mod laws;
pub mod parse;
pub mod text;
