//! What the workflows achieve on the host of the model.

pub mod bring_up;
pub mod tear_down;
pub mod answers;
