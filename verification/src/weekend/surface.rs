//! The window surface: choosing how the swap chain presents to it.

pub mod choose_swap;
