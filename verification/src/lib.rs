//! Forum front-end logic over a federated discussion backend: page-strip
//! construction, "last reply" aggregation, notification merging, upstream
//! response handling and the per-request site context, with machine-checked
//! contracts.

pub mod api;
pub mod env;
pub mod error;
pub mod favicon;
pub mod model;
pub mod pagination;
pub mod routes;
pub mod site_fairing;
pub mod sort;
pub mod template_helpers;
pub mod text;
pub mod time;
pub mod utils;
pub mod vecs;
