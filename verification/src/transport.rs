//! The transport engine registry: the engine that peer connections are made
//! from, built on first use and shared by every caller from then on.

use crate::error::CaptureError;
use std::sync::Arc;
use vstd::prelude::*;
use vstd::string::to_string_from_display_ensures;
use webrtc::api::media_engine::MediaEngine;
use webrtc::api::APIBuilder;
use webrtc::api::API;
use webrtc::peer_connection::RTCPeerConnection;

verus! {

/// `webrtc::api::API`, the transport engine. Nothing of its content is
/// visible to proofs.
#[verifier::external_type_specification]
#[verifier::external_body]
pub struct ExApi(API);

/// `webrtc::api::APIBuilder`, opaque.
#[verifier::external_type_specification]
#[verifier::external_body]
pub struct ExApiBuilder(APIBuilder);

/// `webrtc::api::media_engine::MediaEngine`, the codec registry, opaque.
#[verifier::external_type_specification]
#[verifier::external_body]
pub struct ExMediaEngine(MediaEngine);

/// `webrtc::peer_connection::RTCPeerConnection`, opaque.
#[verifier::external_type_specification]
#[verifier::external_body]
pub struct ExPeerConnection(RTCPeerConnection);

/// `webrtc::Error`, opaque.
#[verifier::external_type_specification]
#[verifier::external_body]
pub struct ExTransportError(webrtc::Error);

/// `MediaEngine::default`: an empty codec registry. Nothing is claimed of it.
pub assume_specification[ <MediaEngine as Default>::default ]() -> MediaEngine;

/// `MediaEngine::register_default_codecs`: adds the crate's default codecs to
/// the registry. Nothing is claimed of the registry afterwards nor of whether
/// the call succeeds. The call stamps each codec with the system time and
/// panics if the clock reads a time before 1970, which no argument can rule
/// out.
pub assume_specification[ MediaEngine::register_default_codecs ](
    engine: &mut MediaEngine,
) -> Result<(), webrtc::Error>;

/// `APIBuilder::new`: a builder with nothing set. Nothing is claimed of it.
pub assume_specification[ APIBuilder::new ]() -> APIBuilder;

/// `APIBuilder::with_media_engine`: the builder, with the codec registry set.
/// Nothing is claimed of it.
pub assume_specification[ APIBuilder::with_media_engine ](
    builder: APIBuilder,
    media_engine: MediaEngine,
) -> APIBuilder;

/// `APIBuilder::build`: the engine made from what the builder holds. Nothing
/// is claimed of it.
pub assume_specification[ APIBuilder::build ](builder: APIBuilder) -> API;

/// `Arc::clone`: one more handle to the allocation that `engine` points to.
#[verifier::external_body]
fn share(engine: &Arc<API>) -> (shared: Arc<API>)
    ensures
        shared == *engine,
{
    Arc::clone(engine)
}

/// What a request for the engine does to the engine slot, and what it
/// returns, given what building an engine yields.
///
/// A filled slot is never touched again, and its engine is what every caller
/// gets. An empty slot takes the engine that was built, or stays empty when
/// codec registration failed.
pub open spec fn provision(slot: Option<Arc<API>>, built: Result<Arc<API>, String>) -> (
    Option<Arc<API>>,
    Result<Arc<API>, CaptureError>,
) {
    match slot {
        Some(engine) => (slot, Ok(engine)),
        None => match built {
            Ok(engine) => (Some(engine), Ok(engine)),
            Err(reason) => (None, Err(CaptureError::CodecRegistration(reason))),
        },
    }
}

/// The transport side of the process: the shared engine, once built, and the
/// one peer connection that negotiation may store.
pub struct WebRTCState {
    api: Option<Arc<API>>,
    peer_connection: Option<Arc<RTCPeerConnection>>,
}

impl WebRTCState {
    /// The content of the engine slot.
    pub closed spec fn engine(&self) -> Option<Arc<API>> {
        self.api
    }

    /// The content of the peer-connection slot.
    pub closed spec fn connection(&self) -> Option<Arc<RTCPeerConnection>> {
        self.peer_connection
    }

    /// A registry with both slots empty.
    pub fn new() -> (state: WebRTCState)
        ensures
            state.engine() is None,
            state.connection() is None,
    {
        WebRTCState { api: None, peer_connection: None }
    }

    /// Whether the engine has been built.
    pub fn has_engine(&self) -> (built: bool)
        ensures
            built == self.engine().is_some(),
    {
        self.api.is_some()
    }

    /// Whether a peer connection is stored.
    pub fn has_peer_connection(&self) -> (stored: bool)
        ensures
            stored == self.connection().is_some(),
    {
        self.peer_connection.is_some()
    }

    /// Answers a request for the engine with the outcome of building one.
    ///
    /// The outcome is used only if the slot is empty; no second engine ever
    /// replaces the first.
    pub fn provide_engine(&mut self, built: Result<Arc<API>, String>) -> (result: Result<
        Arc<API>,
        CaptureError,
    >)
        ensures
            (final(self).engine(), result) == provision(old(self).engine(), built),
            final(self).connection() == old(self).connection(),
    {
        if let Some(engine) = &self.api {
            return Ok(share(engine));
        }
        match built {
            Ok(engine) => {
                let shared = share(&engine);
                self.api = Some(engine);
                Ok(shared)
            },
            Err(reason) => Err(CaptureError::CodecRegistration(reason)),
        }
    }

    /// Returns the shared engine, building it first if this is the first
    /// request.
    ///
    /// Once the slot is filled every call succeeds with the engine it holds,
    /// and builds nothing. With the slot empty the call builds an engine with
    /// the default codecs registered; whatever that yields, the request has
    /// the effect that `provision` gives it: the new engine fills the slot and
    /// is returned, or codec registration failed, the error says so and the
    /// slot stays empty.
    pub fn get_api(&mut self) -> (result: Result<Arc<API>, CaptureError>)
        ensures
            final(self).connection() == old(self).connection(),
            old(self).engine() matches Some(engine) ==> result == Ok::<Arc<API>, CaptureError>(
                engine,
            ),
            exists|built: Result<Arc<API>, String>|
                (final(self).engine(), result) == #[trigger] provision(old(self).engine(), built),
    {
        if let Some(engine) = &self.api {
            let shared = share(engine);
            proof {
                let unused = Err::<Arc<API>, String>(arbitrary());
                assert((self.engine(), Ok::<Arc<API>, CaptureError>(shared)) == provision(
                    self.engine(),
                    unused,
                ));
            }
            return Ok(shared);
        }
        let built = build_engine();
        self.provide_engine(built)
    }
}

/// Whether `text` is what some error of the transport crate displays as.
pub open spec fn describes_transport_error(text: String) -> bool {
    exists|error: webrtc::Error| #[trigger]
        to_string_from_display_ensures::<webrtc::Error>(&error, text)
}

/// Builds a transport engine: a codec registry with the default codecs, and
/// the engine made from it.
///
/// Whether the codecs register is for the transport crate to decide. When
/// they do not, no engine is built and the reason returned is the text that
/// the crate's error displays as.
fn build_engine() -> (built: Result<Arc<API>, String>)
    ensures
        built matches Err(reason) ==> describes_transport_error(reason),
{
    let mut registry = MediaEngine::default();
    match registry.register_default_codecs() {
        Ok(()) => {
            let api = APIBuilder::new().with_media_engine(registry).build();
            Ok(Arc::new(api))
        },
        Err(error) => Err(error.to_string()),
    }
}

/// At most one engine is ever built into the registry: when a request has
/// succeeded, the slot holds the engine it returned, and every later request
/// returns that same engine and leaves the slot alone, whatever a new build
/// would have yielded.
pub proof fn engine_is_provisioned_once(
    slot: Option<Arc<API>>,
    first: Result<Arc<API>, String>,
    second: Result<Arc<API>, String>,
)
    requires
        provision(slot, first).1 is Ok,
    ensures
        ({
            let (once, first_result) = provision(slot, first);
            let (twice, second_result) = provision(once, second);
            &&& once == Some(first_result->Ok_0)
            &&& twice == once
            &&& second_result == first_result
        }),
{
}

} // verus!
