//! Verified core of a small threaded message board: the records it stores,
//! the form data it collects from an upload, how a submitted post turns into
//! database writes, and how stored posts turn into the pages it shows.
pub mod entities;
pub mod numbers;
pub mod pages;
pub mod payload;
pub mod posting;
