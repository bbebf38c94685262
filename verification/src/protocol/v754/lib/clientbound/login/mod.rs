pub mod login_success;
