//! Policy, validation and reconciliation logic of a namespaced RFC 7030 EST
//! issuer for cert-manager.

pub mod api;
pub mod audit;
pub mod csr;
pub mod duration;
pub mod duration_text;
pub mod enrollment;
pub mod error;
pub mod est;
pub mod gates;
pub mod request;
pub mod status;
pub mod policy;
pub mod reconcile;
pub mod text;
mod trusted;

pub use duration::{clamp_retry, Duration};
