//! The negotiation engine of the manager: the API object of the crate webrtc,
//! put together from its default parts.
//!
//! The engine's types are opaque here: the library builds an engine, keeps it
//! and hands it out, and never looks inside. Nothing is claimed of what the
//! engine's functions return but their types.

use crate::negotiation::NegotiationError;
use std::sync::Arc;
use vstd::prelude::*;
use webrtc::api::interceptor_registry::register_default_interceptors;
use webrtc::api::media_engine::MediaEngine;
use webrtc::api::setting_engine::SettingEngine;
use webrtc::api::{APIBuilder, API};
use webrtc::interceptor::registry::Registry;

verus! {

/// `webrtc::api::API`, the engine that makes connections.
#[verifier::external_type_specification]
#[verifier::external_body]
pub struct ExApi(webrtc::api::API);

/// `webrtc::api::APIBuilder`, which collects the parts of an engine.
#[verifier::external_type_specification]
#[verifier::external_body]
pub struct ExApiBuilder(webrtc::api::APIBuilder);

/// `webrtc::api::media_engine::MediaEngine`, the codecs of an engine.
#[verifier::external_type_specification]
#[verifier::external_body]
pub struct ExMediaEngine(webrtc::api::media_engine::MediaEngine);

/// `webrtc::api::setting_engine::SettingEngine`, the settings of an engine.
#[verifier::external_type_specification]
#[verifier::external_body]
pub struct ExSettingEngine(webrtc::api::setting_engine::SettingEngine);

/// `webrtc::interceptor::registry::Registry`, the interceptors of an engine.
#[verifier::external_type_specification]
#[verifier::external_body]
pub struct ExInterceptorRegistry(webrtc::interceptor::registry::Registry);

/// `webrtc::Error`, the error of every call into the engine.
#[verifier::external_type_specification]
#[verifier::external_body]
pub struct ExEngineError(webrtc::Error);

/// Calls `SettingEngine::default`. Nothing is claimed of the result.
#[verifier::external_body]
fn default_setting_engine() -> (settings: SettingEngine) {
    SettingEngine::default()
}

/// Calls `MediaEngine::default`. Nothing is claimed of the result.
#[verifier::external_body]
fn default_media_engine() -> (media: MediaEngine) {
    MediaEngine::default()
}

/// Calls `MediaEngine::register_default_codecs`. Nothing is claimed of the
/// result or of the media engine after the call.
#[verifier::external_body]
fn register_default_codecs(media: &mut MediaEngine) -> (r: Result<(), webrtc::Error>) {
    media.register_default_codecs()
}

/// Calls `Registry::new` of the interceptors. Nothing is claimed of the
/// result.
#[verifier::external_body]
fn new_interceptor_registry() -> (registry: Registry) {
    Registry::new()
}

/// Calls `register_default_interceptors`. Nothing is claimed of the result
/// or of the media engine after the call.
#[verifier::external_body]
fn register_interceptors(registry: Registry, media: &mut MediaEngine) -> (r: Result<
    Registry,
    webrtc::Error,
>) {
    register_default_interceptors(registry, media)
}

/// Calls `APIBuilder::new`. Nothing is claimed of the result.
#[verifier::external_body]
fn new_builder() -> (builder: APIBuilder) {
    APIBuilder::new()
}

/// Calls `APIBuilder::with_media_engine`. Nothing is claimed of the result.
#[verifier::external_body]
fn with_media_engine(builder: APIBuilder, media: MediaEngine) -> (r: APIBuilder) {
    builder.with_media_engine(media)
}

/// Calls `APIBuilder::with_setting_engine`. Nothing is claimed of the result.
#[verifier::external_body]
fn with_setting_engine(builder: APIBuilder, settings: SettingEngine) -> (r: APIBuilder) {
    builder.with_setting_engine(settings)
}

/// Calls `APIBuilder::with_interceptor_registry`. Nothing is claimed of the
/// result.
#[verifier::external_body]
fn with_interceptor_registry(builder: APIBuilder, registry: Registry) -> (r: APIBuilder) {
    builder.with_interceptor_registry(registry)
}

/// Calls `APIBuilder::build`. Nothing is claimed of the result.
#[verifier::external_body]
fn build(builder: APIBuilder) -> (api: API) {
    builder.build()
}

/// Calls `Arc::clone` of the standard library: the result is a second handle
/// of the same engine.
#[verifier::external_body]
pub(crate) fn share(api: &Arc<API>) -> (r: Arc<API>)
    ensures
        r == *api,
{
    Arc::clone(api)
}

/// What the construction of an engine returns for the outcome of a step that
/// may fail: the value of the step, or the error of construction.
pub fn constructed<T>(step: Result<T, webrtc::Error>) -> (r: Result<T, NegotiationError>)
    ensures
        r == match step {
            Ok(value) => Ok::<T, NegotiationError>(value),
            Err(_) => Err::<T, NegotiationError>(NegotiationError::EngineConstruction),
        },
{
    match step {
        Ok(value) => Ok(value),
        Err(_) => Err(NegotiationError::EngineConstruction),
    }
}

/// Builds the engine from its default parts: the default settings, the
/// default codecs and the default interceptors. Whether the codecs and the
/// interceptors can be registered is for the engine to say; where one of the
/// two fails, so does the construction, and with no other error.
pub fn default_api() -> (r: Result<API, NegotiationError>)
    ensures
        r is Err ==> r == Err::<API, NegotiationError>(NegotiationError::EngineConstruction),
{
    let settings = default_setting_engine();
    let mut media = default_media_engine();
    match constructed(register_default_codecs(&mut media)) {
        Ok(()) => {},
        Err(e) => {
            return Err(e);
        },
    }
    let registry = match constructed(register_interceptors(new_interceptor_registry(), &mut media)) {
        Ok(registry) => registry,
        Err(e) => {
            return Err(e);
        },
    };
    let builder = with_media_engine(new_builder(), media);
    let builder = with_setting_engine(builder, settings);
    let builder = with_interceptor_registry(builder, registry);
    Ok(build(builder))
}

} // verus!
