pub mod end_turn;
pub mod combat;
pub mod chasing;
pub mod random_move;
pub mod movement;
pub mod use_item;
pub mod player_input;
pub mod key_handle;
pub mod fov;
pub mod hud;
