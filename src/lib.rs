//! A small styling engine: a style-sheet parser, a markup element tree and a cascade
//! that computes the style of every element.
pub mod text;
pub mod lexer;
pub mod types;
pub mod rules;
pub mod properties;
pub mod parser;
pub mod cascade;
pub mod markup;
pub mod element;
pub mod builder;
pub mod laws;
