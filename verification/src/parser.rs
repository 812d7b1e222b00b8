//! The lexical and syntactic pipeline: input stream, tokenizer, syntax-tree
//! node model, and the parser that ties them together.

pub mod input_stream;
pub mod tokenizer;
pub mod ast;
pub mod ast_builder;
