//! Replays chess games given as compact encoded move lists and credits every
//! capture to the piece that made it, keyed by the square the piece started on.
pub mod analysis;
pub mod api;
pub mod chess_com;
pub mod db;
pub mod dumbchess;
pub mod pgn;
