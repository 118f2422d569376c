//! A todo-list store: named lists of tasks, each task a title and a done flag.
//!
//! The store is an in-memory image of a directory that keeps one file per list.
//! Every operation states exactly how it changes that image and what it reports,
//! so a program that mirrors the image onto a disk inherits the guarantees.

pub mod error;
pub mod json;
pub mod laws;
pub mod loading;
pub mod model;
pub mod names;
pub mod operations;
pub mod store;
pub mod task;
pub mod text;
pub mod wording;
