//! Verified core of the asset portal: the decisions and text that the web
//! application produces, stated as contracts over plain values.

pub mod text;
pub mod errors;
pub mod settings;
pub mod uploads;
pub mod records;
pub mod auth;
pub mod components;
pub mod pages;
pub mod checks;
pub mod seeds;
