pub mod kind;
pub mod laws;
pub mod render;
pub mod text;
pub mod typed;
pub mod wrapped;

pub use kind::ErrorKind;
pub use render::MAX_LEVELS;
pub use typed::Error;
pub use wrapped::WrappedError;
