//! Rate-limit probe for a container registry: the decisions and text handling
//! around obtaining a token and reading the quota headers of a registry reply.
pub mod err;
pub mod limit;
pub mod number;
pub mod options;
pub mod token;
