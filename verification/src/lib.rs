//! Core logic of a thumbnail picker: directory scan filtering, thumbnail
//! scaling, the batch pipeline model, the search filter, and the input
//! state machine.

pub mod args;
pub mod filter;
pub mod grid;
pub mod input;
pub mod pipeline;
pub mod scan;
pub mod text;
pub mod thumb;
