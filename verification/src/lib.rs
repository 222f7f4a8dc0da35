//! Core of a legacy console account service: password hashing in the
//! protocol-mandated legacy scheme, a fixed-layout encrypted token codec,
//! server-side session records, the authentication resolver, and the numeric
//! identifier allocator used at account creation.
//!
//! The deployment's relational store is modelled by in-memory
//! tables (`UserTable`, `TokenStore`), so that every rule that reads or fills
//! them is stated and proved here; transport, serialization and I/O live with
//! the callers.

pub mod account;
pub mod codec;
pub mod crypto;
pub mod devices;
pub mod dsresponse;
pub mod error;
pub mod encoding;
pub mod graphql;
pub mod login;
pub mod mapped_ids;
pub mod mii;
pub mod mii_util;
pub mod oauth;
pub mod password;
pub mod people;
pub mod pid_distribution;
pub mod profile;
pub mod provider;
pub mod random;
pub mod resolver;
pub mod store;
pub mod support;
pub mod text;
pub mod timezones;
pub mod user;
pub mod xml;
