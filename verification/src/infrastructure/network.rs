//! Descriptions of HTTP requests and responses: what to send where, and how
//! to show a request as a command line.

pub mod api;
pub mod curl_logger_plugin;
pub mod curl_plugin;
pub mod http_method;
pub mod plugin;
pub mod provider;
pub mod response;
pub mod target;
pub mod task;

pub use api::{create_api, Api};
pub use curl_logger_plugin::CurlLoggerPlugin;
pub use curl_plugin::CurlPlugin;
pub use http_method::HttpMethod;
pub use plugin::{RequestBody, RequestSummary};
pub use provider::{HttpRequest, NetworkProvider};
pub use response::ApiResponse;
pub use target::TargetType;
pub use task::NetworkTask;
