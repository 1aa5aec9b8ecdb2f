//! A minimal HTTP/1.1 server library: a byte-stream request parser, a
//! content-encoding codec and its negotiation, a response serializer, and
//! the route dispatch, all with verified contracts. The I/O that feeds and
//! drains these functions lives outside the library.

pub mod ascii;
pub mod encoding;
pub mod request;
pub mod response;
pub mod routing;
pub mod server;
