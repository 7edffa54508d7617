pub mod auth;
pub mod builder;
pub mod coerce;
pub mod email;
pub mod entities;
pub mod error;
pub mod filters;
pub mod grammar;
pub mod hasher;
pub mod identifier;
pub mod json;
pub mod jwt;
pub mod laws;
pub mod lifecycle;
pub mod model;
pub mod outside;
pub mod placeholders;
pub mod registry;
pub mod request;
pub mod response;
pub mod secrets;
pub mod text;
pub mod timer;
pub mod token;
pub mod totp;
pub mod uid;
pub mod values;
