pub mod ast;
pub mod cache;
pub mod engine;
pub mod error;
pub mod expr;
pub mod includes;
pub mod parser;
pub mod render;
pub mod value;
