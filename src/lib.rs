pub mod action;
pub mod dialog;
pub mod errors;
pub mod keys;
pub mod laws;
pub mod page;
pub mod pages;
pub mod resource;
pub mod selection;
