//! Moderation of video frames: the decisions of a pipeline that fetches a
//! video, samples it into still frames and asks a vision model for a verdict
//! on each frame, in frame order.
//!
//! The crate holds the rules and leaves the waiting to its caller. Network
//! transfers, the decoder process and the pauses between requests are run by
//! the surrounding program, which reports what happened and is told what to
//! do next.

pub mod error;
pub mod extract;
pub mod frame;
pub mod locator;
pub mod order;
pub mod pipeline;
pub mod reply;
pub mod request;
pub mod retry;
pub mod text;
pub mod verdict;
