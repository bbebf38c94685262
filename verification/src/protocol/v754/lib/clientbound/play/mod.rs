pub mod spawn_living_entity;
