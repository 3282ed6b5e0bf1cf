//! Flashcard generation pipeline: prompt construction for a local inference
//! server, strict validation and normalization of the model's JSON output into
//! flashcard records with fresh identifiers, tolerant model-catalog parsing,
//! and the deck persistence format.

pub mod cards;
pub mod catalog;
pub mod json;
pub mod generate;
pub mod normalize;
pub mod persist;
