//! A small user directory: field validation, a store that keeps identifiers
//! and e-mail addresses unique, the closed sets of outcomes of looking a user
//! up and of creating one, and the HTML pages and JSON answers that present
//! them.
//!
//! Every function here is verified against its contract. The few calls into
//! the `uuid` crate and into the standard library's formatting stand in small
//! functions of their own, whose contracts are taken on trust; each says so.

pub mod ident;
pub mod quote;
pub mod validation;
pub mod store;
pub mod memory;
pub mod user_service;
pub mod html;
pub mod pages;
pub mod api;
