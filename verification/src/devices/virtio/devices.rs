pub mod blk;
pub mod counter;
