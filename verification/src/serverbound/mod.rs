pub mod login;
pub mod play;
pub mod status;
