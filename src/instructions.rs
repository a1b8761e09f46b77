pub mod arithmetic;
pub mod bit;
pub mod decrement;
pub mod enums;
pub mod increment;
pub mod jump;
pub mod load;
pub mod logical;
pub mod misc;
pub mod utils;
