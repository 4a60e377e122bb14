pub mod push;
pub mod playground_help;
pub mod recipe;
