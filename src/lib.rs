//! Symmetries of the square acting on grid directions.

mod direction;
mod error;
mod laws;
mod text;
mod transform;

pub use direction::{Direction, ALL_DIRECTIONS, DIRECTION_TOKENS};
pub use error::NavError;
pub use laws::{
    lemma_action, lemma_associative, lemma_closure, lemma_identity, lemma_inverse,
    lemma_negate, lemma_partition, lemma_round_trip,
};
pub use text::{ascii_upper, ascii_upper_text, is_ascii_text, upper_of};
pub use transform::{code_of_parts, Transform, ALL_TRANSFORMS, TRANSFORM_TOKENS};
