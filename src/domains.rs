//! The provider's resources that authenticated calls list.

pub mod monetary_account;
pub mod oauth;
pub mod payment;
