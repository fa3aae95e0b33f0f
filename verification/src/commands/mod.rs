pub mod voice;
pub mod queue;
pub mod messages;
pub mod input;
