pub mod helpers;
pub mod text;
