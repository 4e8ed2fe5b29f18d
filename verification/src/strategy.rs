//! The strategies: orchestration over the storage capabilities.

pub mod magic_link;
pub mod passkey;
