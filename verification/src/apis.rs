//! The readers of the portal's pages, by the version of the API that gives
//! out what they read.

pub mod v1;
