//! A small HTTP API: a route table, request handlers, a multipart field
//! decoder and the API description derived from the routes and schemas.
use vstd::prelude::*;

pub mod decimal;
pub mod handlers;
pub mod multipart;
pub mod routes;
pub mod docs;
pub mod config;
