//! The files that are read, by the program that writes them.
pub mod ese;
pub mod euroscope;
pub mod vnas_crc;
