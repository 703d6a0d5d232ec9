//! Falling character streams for a terminal: the streams themselves, the
//! manager that admits and retires them, and the bag that deals out the
//! columns they start in.

pub mod ansi;
pub mod cli_parser;
pub mod colors;
pub mod message;
pub mod position;
pub mod random;
pub mod random_vec_bag;
pub mod falling_char;
pub mod frame;
pub mod config;
pub mod faller_adder;
