//! The decision logic of an API gateway: API-key authorization, request
//! logging and user registration, written as verified step functions that the
//! surrounding server drives.

pub mod console;
pub mod database;
pub mod handler;
pub mod middleware;
pub mod models;
pub mod registration;
pub mod routes;
pub mod testing;
pub mod text;
