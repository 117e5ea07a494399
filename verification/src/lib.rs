//! Status line for a shell prompt: a label that says where the checkout is,
//! and a code that says how clean the working tree is.

mod backend;
pub mod codes;
pub mod label;
pub mod porcelain;
pub mod repo;
pub mod status;
