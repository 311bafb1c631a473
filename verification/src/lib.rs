pub mod charset;
pub mod error;
pub mod field;
pub mod gen_engine;
pub mod generator;
pub mod keys;
pub mod laws;
pub mod length;
pub mod rules;
pub mod text;
