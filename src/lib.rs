//! Capability negotiation for a video-acceleration driver backed by a GPU video API.
//!
//! The crate holds the decisions of the driver: validation of the opaque handles that the
//! host passes in, the mapping of internal failures to host status codes, the catalogue of
//! profiles and entrypoints, device identity matching, codec extension lookup, queue family
//! selection and the layout of the operation table.

pub mod catalog;
pub mod codecs;
pub mod device;
pub mod dispatch;
pub mod extensions;
pub mod gpu;
pub mod handle;
pub mod status;
