pub mod args;
pub mod filter;
pub mod run;
