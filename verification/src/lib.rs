pub mod graphics;
pub mod board;
pub mod piece;
pub mod block_list;
pub mod input;
pub mod display;
pub mod game;
