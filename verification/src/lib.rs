//! A newsletter subscription core: validated subscriber data, confirmation
//! tokens, the transactional subscribe/confirm workflow over the subscriber
//! store, and the uniform error taxonomy of the HTTP surface.
pub mod configuration;
pub mod domain;
pub mod error;
pub mod form;
pub mod store;
pub mod subscriptions;
pub mod subscriptions_confirm;
pub mod telemetry;
pub mod token;
