//! A small issue tracker: epics that own stories, kept in a store that is
//! read and rewritten whole by every operation, and a page navigator that
//! turns user actions into page-stack changes and store updates.

pub mod db;
pub mod laws;
pub mod models;
pub mod navigator;
pub mod page_helpers;
pub mod pages;
