//! The decisions and the text fragments of a block explorer web front end:
//! routing of search requests, paging of the block list, and the small HTML
//! and text snippets that the dashboard polls for.

pub mod decimal;
pub mod text;
pub mod search;
pub mod blocks;
pub mod pages;
pub mod dashboard;
