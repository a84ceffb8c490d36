//! Menu catalog of a sushi restaurant: extraction from the menu page,
//! classification into a closed set of categories, a record form for
//! storage, and a seeded draw of one dish per participant.

pub mod menu;
pub mod text;
mod scrape;
pub mod markup;
pub mod extract;
pub mod catalog;
pub mod store;
mod draw;
pub mod assign;
