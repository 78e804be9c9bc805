//! The five content collections. Each has the same shape: a store-assigned
//! id, a primary text field, further text fields, and — for the cover-bearing
//! collections — a cover filename referencing the image store.

pub mod book;
pub mod post;
pub mod publication;
pub mod text;
pub mod textbook;
