pub mod laws;
pub mod model;
pub mod state;
pub mod waker;
