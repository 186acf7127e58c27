//! Small verified exercises: matrices, digests, points and polygons, a text
//! user interface, book shelves, request-path matching, and a few words on
//! traits and generics, each with a contract that states what it does.
use vstd::prelude::*;

pub mod ages;
pub mod array_for_loops;
pub mod basics;
pub mod generics;
pub mod gui;
pub mod library;
pub mod paths;
pub mod philosophers;
pub mod polygon;
pub mod race;
pub mod storing_book;
pub mod text;
pub mod traits;
pub mod unsafes;
pub mod username;
pub mod words;

verus! {

} // verus!
