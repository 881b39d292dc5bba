pub mod args;
pub mod display;
pub mod effects;
pub mod event_bus;
pub mod models;
pub mod player_manager;
pub mod text;
