//! A transparent TCP relay core: PROXY-protocol header encoders and the
//! per-connection and acceptor decision logic, stated and proved here;
//! sockets and scheduling live outside the library.

pub mod addr;
pub mod header;
pub mod relay;
