//! Core of a payment-processing service: the payment lifecycle state
//! machine, fraud gate, merchant directory, record store and orchestrator.
//!
//! Every state change of a payment follows the lifecycle transition table,
//! refunds never exceed the paid amount, and each committed transition is
//! announced by exactly one lifecycle event.

pub mod auth;
pub mod config;
pub mod crypto;
pub mod customer;
pub mod errors;
pub mod events;
pub mod fraud;
pub mod laws;
pub mod lifecycle;
pub mod listing;
pub mod merchant;
pub mod payment;
pub mod processor;
mod runtime;
pub mod service;
pub mod store;
pub mod text;
