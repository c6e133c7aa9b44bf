//! Authentication and authorization core of a note-taking backend:
//! stateful token issuance, verification, and the per-request
//! authorization gate, together with the small data model and the
//! HTML page context that the server renders.

pub mod auth;
pub mod filters;
pub mod gate;
pub mod html;
pub mod models;
pub mod rejections;
pub mod store;
pub mod web;
