pub mod wire;
pub mod raw_packet;
pub mod nbt_blob;
pub mod text;
pub mod laws;
pub mod types;
pub mod packet;
pub mod protocol;
pub mod utils;
pub mod serverbound;
pub mod replies;
pub mod fmt;
