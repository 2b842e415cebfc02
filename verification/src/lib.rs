//! Monthly fortune rankings read from a web page.
//!
//! The page holds one block per birth month. For a month the library finds
//! that block, classifies it into one of four tiers, reads the description,
//! the lucky colour and the date of the last update, and renders them as a
//! short text. Fetching the page is left to the caller: every function here
//! works on text that is already in memory.
//!
//! A page addresses its blocks in one of two ways, and the caller says in
//! which: by element id, `month` followed by the month's number, with the
//! tier in the block's marker; or by position in a list of rows, where the
//! place in the list is the rank.
pub mod text;
pub mod input;
pub mod page;
pub mod fortune;
pub mod extract;
pub mod rows;
pub mod event;
pub mod response;
pub mod laws;
