//! A shared message board service: posted messages get a timestamp from the
//! store, and listings are filtered by an exclusive time range.

pub mod model;
pub mod filter;
pub mod decode;
pub mod respond;
pub mod dispatch;
pub mod laws;
