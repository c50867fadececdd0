//! The two messages that travel between the gateway and a worker.

use vstd::prelude::*;

verus! {

/// A message on a worker connection. No other shape is valid there.
#[derive(Debug, Clone, PartialEq, Eq)]
pub enum ImageMessage {
    /// Sent by the gateway to a worker.
    Request(ImageRequest),
    /// Sent by a worker back to the gateway.
    Response(ImageResponse),
}

/// Asks a worker to process `image_data`. The worker echoes `request_id` in its
/// response and reads nothing else into it.
#[derive(Debug, Clone, PartialEq, Eq)]
pub struct ImageRequest {
    pub request_id: u128,
    pub image_data: Vec<u8>,
}

/// A worker's answer to the request that carried the same `request_id`.
#[derive(Debug, Clone, PartialEq, Eq)]
pub struct ImageResponse {
    pub request_id: u128,
    pub processed_image_data: Vec<u8>,
}

} // verus!
