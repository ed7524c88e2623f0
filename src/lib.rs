pub mod error;
pub mod naming;
pub mod enumerate;
pub mod plan;
pub mod codec;
pub mod args;
