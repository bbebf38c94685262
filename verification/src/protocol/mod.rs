pub mod v754;
