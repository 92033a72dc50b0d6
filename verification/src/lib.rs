pub mod bus;
pub mod coordinator;
pub mod endpoint;
pub mod errors;
pub mod events;
pub mod feedback;
pub mod resolver;
