//! One contract for many programming-judge sites: routing a task URL to the
//! adapter that owns its host, reading what a site's pages hold, keeping a
//! session alive from cached tokens, and naming every verdict and failure in
//! one vocabulary.

pub mod error;
pub mod text;
pub mod model;
pub mod query;
pub mod session;
pub mod spoj;
pub mod transport;
pub mod dispatch;
pub mod manager;
pub mod library;
pub mod scaffold;
