//! What the pages of the site share with the game: errors, forms and the
//! decisions behind joining and creating a game.

pub mod errors;
pub mod forms;
pub mod routes;
