//! A verified line-processing pipeline: resolve a file-path argument,
//! take the decoded lines of a file, optionally map each line through a
//! fallible transform (such as unsigned-integer parsing), and either
//! collect every value in order or stop at the first failure with a
//! classified error.

pub mod args;
pub mod errors;
pub mod laws;
pub mod lines;
pub mod numbers;
pub mod pipeline;
pub mod text;
