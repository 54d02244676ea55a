pub mod address;
pub mod bridge;
pub mod bytes;
pub mod error;
pub mod events;
pub mod lifecycle;
pub mod notification;
pub mod platform;
