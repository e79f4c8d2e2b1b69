//! The dormitory-utilities portal.

pub mod types;
