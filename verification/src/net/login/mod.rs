//! The packets of the login phase.

pub mod disconnect;
pub mod encryption;
pub mod start;
pub mod success;

pub use disconnect::LoginDisconnect;
pub use start::LoginStart;
pub use success::LoginSuccess;
