//! Values that a new or returning subscriber supplies.

pub mod subscriber_password;
pub mod new_subscriber;
pub mod old_subscriber;
