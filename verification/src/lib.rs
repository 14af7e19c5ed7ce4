#![allow(non_snake_case)]

pub mod auth;
pub mod config;
pub mod data;
pub mod error;
pub mod hashing;
pub mod paths;
pub mod post;
pub mod post_pipeline;
pub mod sqlite_connection;
pub mod strutil;
pub mod urls;
