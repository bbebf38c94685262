pub mod disconnect;
pub mod login_success;
pub mod set_compression;
