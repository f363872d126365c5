//! Request-building, response-classification, paging and request-flow logic
//! of a transaction relayer service and its HTTP SDK.

pub mod background;
pub mod encoding;
pub mod headers;
pub mod http_client;
pub mod paging;
pub mod signing;
pub mod text;
