//! A GitHub-style REST API client core: HTTP value types, header helpers,
//! streaming response parsers, request preparation and a pagination driver.
pub mod client;
pub mod consts;
pub mod errors;
pub mod headers;
pub mod http_url;
pub mod method;
pub mod pagination;
pub mod parser;
pub mod request;
pub mod response;
pub mod util;

pub use crate::method::{Method, ParseMethodError};
