//! Client-side models and the resumable chunked upload engine of an object-storage and
//! function-deployment service.
//!
//! `upload` decides between one request and ordered, range-addressed chunks, resumes after the
//! chunks the service already holds, and threads the identifier that the service returns from
//! chunk to chunk; `source` is the in-memory byte source it reads from. The remaining modules
//! hold identifiers, permissions, queries and other request models with their wire text.

pub mod ids;
pub mod locale;
pub mod models;
pub mod params;
pub mod permission;
pub mod query;
pub mod runtime;
pub mod search;
pub mod source;
pub mod text;
pub mod upload;
