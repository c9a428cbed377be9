//! A small to-do list: validated to-do items, the list that holds them,
//! and the command-level application logic around that list.

pub mod app;
pub mod cli;
pub mod models;
pub mod laws;
pub mod text;
