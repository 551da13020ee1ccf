//! The LL(1) subsystem: statically derived FIRST/FOLLOW sets, the predictive
//! parsing table built from the enumerated production list, and the
//! stack-based predictive validator.

pub mod first_follow;
pub mod ll1_table;
pub mod predictive;
