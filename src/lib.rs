pub mod border;

pub use border::{Border, BorderStyle, Edge, Separator};
