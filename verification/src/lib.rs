//! A TOSCA document model: YAML documents are loaded into one graph, and the
//! TOSCA grammar turns them into typed entities and relations in the same
//! graph, with every problem recorded as an error node located at the YAML
//! node that caused it.
pub mod models;
pub mod ast;
pub mod yaml;
pub mod grammar;
pub mod text;
pub mod parser;
pub mod semantic;
