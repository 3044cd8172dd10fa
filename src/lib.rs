//! A multi-tenant store of bare git repositories, and the queries that are
//! answered against one: branches, history, trees, files, diffs and
//! archives. Each tenant is an (owner id, repository id) pair with one bare
//! repository under a root directory.

pub mod alert;
pub mod auth;
pub mod encoding;
pub mod errors;
pub mod http_paths;
pub mod model;
pub mod paths;
pub mod query;
pub mod repo;
pub mod revspec;
pub mod store;
