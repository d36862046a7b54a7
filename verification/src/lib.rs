//! A rules engine for English draughts (checkers): board geometry,
//! piece and move modelling, legal-move generation, and move application
//! with captures, crowning and turn sequencing.

pub mod board;
pub mod game;
pub mod laws;
