//! The list of followed videos and the plain records of the collection view.

pub mod collectionlist;
pub mod config;
pub mod data;
