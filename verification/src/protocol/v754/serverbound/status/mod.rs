pub mod status_request;
