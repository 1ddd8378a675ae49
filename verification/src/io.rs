//! Asynchronous I/O handles.

pub mod tcp;
pub mod vectored;

pub use self::tcp::TcpStream;
