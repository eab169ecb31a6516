//! Normalized compression distance between two texts, with an audit trail of
//! the compressed sizes it was computed from, and the plain decisions of the
//! client that fetches the texts to compare.

pub mod ncd;
pub mod probe;

pub use ncd::{
    compressed_size, compute_ncd, compute_ncd_with, ncd_from_sizes, ncd_score, size_or_raw,
    NcdConfig, NcdResult, Ratio,
};
pub use probe::{auth_headers, first_content, request_url, status_error, ApiType, InjectorError};
