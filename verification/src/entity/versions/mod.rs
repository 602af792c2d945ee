pub mod mapping1_10_2;
pub mod mapping1_12_2;
