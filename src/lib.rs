//! Core of a package-manager client: manifest schema, repository model,
//! dependency resolution, download planning and the install pipeline.
pub mod bucket;
pub mod bucket_app;
pub mod dirs;
pub mod download;
pub mod fetch;
pub mod install;
pub mod installed_app;
pub mod json;
pub mod manifest;
pub mod resolve;
pub mod text;
pub mod utils;
