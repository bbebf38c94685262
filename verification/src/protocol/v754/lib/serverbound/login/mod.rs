pub mod enc_response;
