//! Client-side logic of the S3 multipart upload protocol.
//!
//! The library groups items into size-bounded parts, numbers and dispatches
//! them, tracks completed parts, and finalizes each object with a sorted list
//! of completed parts, rolling over to a new destination when one is done.
//! Every transition is a verified function from state and event to the next
//! state; the I/O that performs the four transport operations lives outside.
#![allow(unused_imports)]

pub mod limits;
pub mod uri;
pub mod uri_iter;
pub mod types;
pub mod parts;
pub mod body;
pub mod error;
pub mod request;
pub mod pool;
pub mod upload;
pub mod codec;
pub mod state;
pub mod encoded;
