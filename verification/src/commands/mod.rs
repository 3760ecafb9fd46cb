//! What the interface's commands decide, once the disk has been read.
pub mod buscar;
pub mod config;
pub mod enviar;
