pub mod agent;
pub mod models;
pub mod protocol;
pub mod runtime;
pub mod tools;
