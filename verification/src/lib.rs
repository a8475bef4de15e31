//! A terminal flashcard manager's core: menu navigation, option parsing and
//! the review session, with every function proved against its contract.

pub mod auth;
pub mod menus;
pub mod model;
pub mod models;
pub mod queries;
pub mod review;
pub mod state;
pub mod text;
