//! Small string helpers that hand a value over, hand it back, measure it or
//! extend it in place, each with a contract over the string's characters.
pub mod ownership;

pub use ownership::{
    byte_len, calculate_length, calculate_length_ref, change, gives_ownership,
    lemma_ascii_byte_len, suffix, takes_and_gives_back, yours,
};
