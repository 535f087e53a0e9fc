//! A two-player Pong simulation: a registry of rigid bodies stepped at a fixed
//! rate, paddles driven by held keys, and a scoring state machine that
//! respawns the ball after every goal.
pub mod ball;
pub mod body;
pub mod contact;
pub mod draw;
pub mod game;
pub mod input;
pub mod player;
pub mod wall;
pub mod world;
