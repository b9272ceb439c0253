//! Single-window image viewer core: the UDP control protocol that lets a new
//! invocation hand its image to an already running viewer, the decisions of
//! the requesting client and of the serving dispatcher, and the pixel work of
//! fitting and centering a decoded image into the window buffer.

pub mod packet;
pub mod server;
pub mod client;
pub mod color;
pub mod images;
pub mod utils;
