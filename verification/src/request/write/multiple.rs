//! Requests that write several items at once, reported through options.

pub mod registers;
