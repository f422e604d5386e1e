//! Composable graph of host-side futures that stand for pending GPU work,
//! together with the flush algorithm that folds such a graph into batched
//! device submissions while tracking resource access.
//!
//! A chain is built by applying combinators to a seed identity node: joining
//! sibling chains, executing recorded command buffers, signalling semaphores
//! (for cross-queue ordering) or fences (for host-side waits), and presenting
//! swapchain images.  Flushing a chain folds the pending work into submission
//! batches and hands them to the device, which records every submission it
//! accepts, so that what was submitted, on which queue, and with which
//! synchronisation attached can be inspected and reasoned about.

pub mod device;
pub mod future;
pub mod pipeline;
pub mod submit;
