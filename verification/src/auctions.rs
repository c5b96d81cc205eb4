pub mod ascending;
pub mod behavior;
pub mod discount;
