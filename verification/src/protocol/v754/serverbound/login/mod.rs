pub mod login_start;
