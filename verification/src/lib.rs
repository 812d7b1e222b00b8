//! Front end of a small JavaScript-like language: an input stream over raw
//! source bytes, a tokenizer that classifies lexical units, a typed syntax
//! tree with a canonical textual rendering, and a recursive-descent parser
//! that builds one `ProgramNode` from the token stream or stops at the first
//! lexical or syntax error.

pub mod parser;
