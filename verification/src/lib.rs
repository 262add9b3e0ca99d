//! Core of a mailing-list signup service: form validation, reconciliation of
//! subscriber and confirmation-token records, and the token-driven transition
//! from a pending to a confirmed subscription.
pub mod domain;
pub mod form;
pub mod laws;
pub mod store;
pub mod subscriptions;
pub mod subscriptions_confirm;
pub mod text;
pub mod token;
