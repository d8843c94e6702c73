pub mod builder;
pub mod run;
