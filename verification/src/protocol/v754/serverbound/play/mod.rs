pub mod chat_message;
pub mod client_settings;
pub mod entity_action;
pub mod keepalive;
pub mod player_block_placement;
pub mod player_position;
pub mod player_position_and_rotation;
pub mod resource_pack_status;
pub mod steer_vehicle;
