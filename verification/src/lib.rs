//! A small blog engine whose articles and images live in a GitHub repository.
//!
//! This crate holds the engine's decisions: the identifiers of entries and how
//! they are written, the configuration defaults, the article and image indexes,
//! the paths and URLs under which entries are stored and fetched, and what each
//! page of the web server answers for the data it was handed.

pub mod entry_id;
pub mod settings;
pub mod index;
pub mod remote;
pub mod article;
pub mod image;
pub mod pages;
