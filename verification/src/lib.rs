//! A lightweight emulator of an object storage service: request routing,
//! listing, range handling, form parsing and the shape of every reply.

pub mod text;
pub mod params;
pub mod request;
pub mod storage;
pub mod range;
pub mod form;
pub mod error;
pub mod models;
pub mod config;
pub mod cli;
pub mod bucket_config;
pub mod handlers;
pub mod response;
pub mod server;
