pub mod channels;
pub mod message;
