pub mod chat_message;
