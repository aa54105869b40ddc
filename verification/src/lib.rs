pub mod block;
pub mod errors;
pub mod shell;
pub mod text;
