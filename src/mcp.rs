//! The tool layer of the agent protocol: its error taxonomy, the content it
//! returns, and the decisions behind each tool and method.
pub mod errors;
pub mod protocol;
pub mod routing;
pub mod tools;
