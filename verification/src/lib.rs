//! A subscription-tiered gateway in front of a news search engine.
//!
//! The library holds the rules of the gateway, each with a verified
//! contract: what every tier is allowed ([`tier`]), how requests are counted
//! per user and hour ([`limiter`], [`clock`]), how a search becomes a request
//! to the search engine ([`query`], [`repository`]), how the replies are read
//! ([`mapper`], [`trending`]), what each tier gets to see of the results
//! ([`service`]), and what is answered ([`handlers`], [`response`],
//! [`errors`], [`auth`]). Talking to the network is left to the caller.

pub mod auth;
pub mod clock;
pub mod config;
pub mod errors;
pub mod handlers;
pub mod json;
pub mod limiter;
pub mod lists;
pub mod mapper;
pub mod models;
pub mod query;
pub mod repository;
pub mod response;
pub mod service;
pub mod text;
pub mod tier;
pub mod trending;
