pub mod bureau;
pub mod content;
pub mod ids;
pub mod lifecycle;
pub mod protocol;
