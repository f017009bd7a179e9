pub mod data_structures;
pub mod math;
pub mod utils;
pub mod wallet;
