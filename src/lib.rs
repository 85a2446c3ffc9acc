//! Data types and rules of a bookmark keeper: saved links, the browsers they
//! open in, error reports, and the filtering of links by tag and browser.
pub mod browser;
pub mod commands;
pub mod error_reporter;
pub mod filter;
pub mod forms;
pub mod generate;
pub mod input;
pub mod link;
pub mod text;
pub mod ui;
