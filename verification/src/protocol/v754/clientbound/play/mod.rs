pub mod ack_player_digging;
pub mod chat_message;
pub mod display_scoreboard;
pub mod entity_effect;
pub mod keepalive;
pub mod open_book;
pub mod player_abilities;
pub mod player_position_and_look;
pub mod resource_pack_send;
pub mod spawn_entity;
pub mod spawn_painting;
pub mod spawn_player;
pub mod update_health;
pub mod set_passenger;
pub mod teams;
pub mod update_score;
pub mod tab_complete;
pub mod chunk_data;
pub mod window_items;
