pub mod auth;
pub mod decode;
pub mod download;
pub mod json;
pub mod models;
pub mod paths;
pub mod responses;
