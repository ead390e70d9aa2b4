//! The AI's long-term memory: prompt composition around the memory files,
//! the scoped fact store, and the rules of the memory tools.
pub mod inject;
pub mod scope;
pub mod store;
pub mod tools;
