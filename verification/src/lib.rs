//! Lifecycle control for a real-time audio capture pipeline and lazy
//! provisioning of the transport engine that carries its output.
//!
//! The library owns every decision and no side effect on the media
//! framework. State lives in plain values that the caller owns and guards:
//! [`pipeline::AudioState`] for the one capture pipeline,
//! [`init::MediaInit`] for the framework's initialization,
//! [`counter::BufferCounter`] for the delivered buffers and
//! [`transport::WebRTCState`] for the shared transport engine. Operations on
//! the framework are conversations of events and actions, specified step by
//! step in [`pipeline`] and [`init`] and as a whole in [`lifecycle`].

pub mod counter;
pub mod error;
pub mod greeting;
pub mod init;
pub mod lifecycle;
pub mod pipeline;
pub mod transport;
