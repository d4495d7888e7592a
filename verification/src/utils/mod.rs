pub mod bits;
pub mod rand;

pub use rand::{RandGen, SimpleRng};
