//! A thin, verified adapter that exposes a subset of a full HTTP client's
//! interface (response inspection, proxy configuration) on a target where the
//! actual network request is performed by a host-provided call. The host hands
//! back a status code, a list of header pairs and a body buffer; this crate
//! wraps them and proves what each accessor returns.

pub mod chars;
pub mod codec;
pub mod error;
pub mod headers;
pub mod numbers;
pub mod proxy;
pub mod response;

pub use error::ClientError;
pub use headers::HeaderMap;
pub use proxy::{IntoProxyScheme, Proxy, ProxyScheme};
pub use response::Response;
