//! The learning-management portal.

pub mod types;
