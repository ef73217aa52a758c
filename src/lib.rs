pub mod handlers;
pub mod protocol;
pub mod response;
pub mod server;
pub mod status_bar;
