//! The verified core of the Python bindings for the Jung/Gira eNet
//! "Funk Gateway IP" client: device kinds and values, the device directory
//! of a connected client, the commands the client sends, and the texts that
//! the bindings show.
pub mod text;
pub mod value;
pub mod device;
pub mod command;
pub mod client;
