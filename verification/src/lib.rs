//! A contract factory: on an authorized request it derives the address of a
//! new child instance, describes the provisioning submission for the
//! execution substrate, and records the instance in an append-only registry
//! once the substrate confirms success.

pub mod account_id;
pub mod factory;

pub use account_id::FactoryError;
pub use factory::NFTFactory;
