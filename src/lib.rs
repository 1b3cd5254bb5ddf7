pub mod crop;
pub mod engine;
pub mod input;
pub mod monitor;
pub mod player;
pub mod season;
pub mod trade;
pub mod types;

pub use engine::GameEngine;
pub use player::Player;
pub use season::Season;
