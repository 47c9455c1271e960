//! Ad blocking: which resources of a page are loaded.

use crate::codes::{resource_type_code, resource_type_number};
use std::rc::Rc;
use vstd::prelude::*;

verus! {

/// The filter engine of the `adblock` crate, carried as an opaque value.
#[verifier::external_type_specification]
#[verifier::external_body]
pub struct ExEngine(adblock::Engine);

/// A request in the form that the filter engine takes, carried as an opaque
/// value.
#[verifier::external_type_specification]
#[verifier::external_body]
pub struct ExRequest(adblock::request::Request);

/// Why a request has no form that the filter engine takes.
#[derive(Clone, Copy, Debug, PartialEq, Eq, Structural)]
pub enum AdblockRequestError {
    /// The address has no host that can be read.
    HostnameParseError,
    /// The address of the source has no host that can be read.
    SourceHostnameParseError,
    /// A host is not valid Unicode.
    UnicodeDecodingError,
}

/// The filter engine's form of a request for an address, from a source, for a
/// type of resource.
pub uninterp spec fn engine_request(
    url: Seq<char>,
    source_url: Seq<char>,
    request_type: Seq<char>,
) -> Result<adblock::request::Request, AdblockRequestError>;

/// A blocking rule of the engine matches the request.
pub uninterp spec fn rule_matches(
    engine: adblock::Engine,
    request: adblock::request::Request,
) -> bool;

/// Makes the filter engine's form of a request with
/// `adblock::request::Request::new`, which parses the two addresses and is a
/// function of its three texts alone. It fails only where it finds no host in
/// the requested address: a source without one is taken for a third party.
#[verifier::external_body]
fn new_engine_request(url: &str, source_url: &str, request_type: &str) -> (request: Result<
    adblock::request::Request,
    AdblockRequestError,
>)
    ensures
        request == engine_request(url@, source_url@, request_type@),
        request matches Err(error) ==> error == AdblockRequestError::HostnameParseError,
{
    match adblock::request::Request::new(url, source_url, request_type) {
        Ok(request) => Ok(request),
        Err(adblock::request::RequestError::HostnameParseError) => Err(
            AdblockRequestError::HostnameParseError,
        ),
        Err(adblock::request::RequestError::SourceHostnameParseError) => Err(
            AdblockRequestError::SourceHostnameParseError,
        ),
        Err(adblock::request::RequestError::UnicodeDecodingError) => Err(
            AdblockRequestError::UnicodeDecodingError,
        ),
    }
}

/// Asks `adblock::Engine::check_network_request` about a request and keeps
/// whether it was matched. The rules and tags of a borrowed engine do not
/// change, and what it caches does not change its answer, so the answer is a
/// function of the engine and the request.
#[verifier::external_body]
fn check_request(engine: &adblock::Engine, request: &adblock::request::Request) -> (matched: bool)
    ensures
        matched == rule_matches(*engine, *request),
{
    engine.check_network_request(request).matched
}

/// CEF's numbers for the types of resources.
pub const RT_MAIN_FRAME: u32 = 0;

pub const RT_SUB_FRAME: u32 = 1;

pub const RT_STYLESHEET: u32 = 2;

pub const RT_SCRIPT: u32 = 3;

pub const RT_IMAGE: u32 = 4;

pub const RT_FONT_RESOURCE: u32 = 5;

pub const RT_SUB_RESOURCE: u32 = 6;

pub const RT_OBJECT: u32 = 7;

pub const RT_MEDIA: u32 = 8;

pub const RT_WORKER: u32 = 9;

pub const RT_SHARED_WORKER: u32 = 10;

pub const RT_FAVICON: u32 = 12;

pub const RT_XHR: u32 = 13;

pub const RT_PING: u32 = 14;

pub const RT_SERVICE_WORKER: u32 = 15;

pub const RT_CSP_REPORT: u32 = 16;

pub const RT_PLUGIN_RESOURCE: u32 = 17;

pub const RT_NAVIGATION_PRELOAD_MAIN_FRAME: u32 = 19;

pub const RT_NAVIGATION_PRELOAD_SUB_FRAME: u32 = 20;

/// The filter engine's name for the type of resource that a CEF number stands
/// for.
pub open spec fn request_type_of(code: u32) -> &'static str {
    if code == RT_MAIN_FRAME || code == RT_NAVIGATION_PRELOAD_MAIN_FRAME {
        "main_frame"
    } else if code == RT_SUB_FRAME || code == RT_NAVIGATION_PRELOAD_SUB_FRAME {
        "sub_frame"
    } else if code == RT_STYLESHEET {
        "stylesheet"
    } else if code == RT_SCRIPT || code == RT_WORKER || code == RT_SHARED_WORKER || code
        == RT_SERVICE_WORKER {
        "script"
    } else if code == RT_IMAGE || code == RT_FAVICON {
        "image"
    } else if code == RT_FONT_RESOURCE {
        "font"
    } else if code == RT_SUB_RESOURCE {
        "object_subrequest"
    } else if code == RT_OBJECT || code == RT_PLUGIN_RESOURCE {
        "object"
    } else if code == RT_MEDIA {
        "media"
    } else if code == RT_XHR {
        "xhr"
    } else if code == RT_PING {
        "ping"
    } else if code == RT_CSP_REPORT {
        "csp_report"
    } else {
        "other"
    }
}

/// Finds the filter engine's name for the number of a type of resource.
pub fn request_type(code: u32) -> (name: &'static str)
    ensures
        name == request_type_of(code),
{
    match code {
        RT_MAIN_FRAME => "main_frame",
        RT_SUB_FRAME => "sub_frame",
        RT_STYLESHEET => "stylesheet",
        RT_SCRIPT => "script",
        RT_IMAGE => "image",
        RT_FONT_RESOURCE => "font",
        RT_SUB_RESOURCE => "object_subrequest",
        RT_OBJECT => "object",
        RT_MEDIA => "media",
        RT_WORKER => "script",
        RT_SHARED_WORKER => "script",
        RT_FAVICON => "image",
        RT_XHR => "xhr",
        RT_PING => "ping",
        RT_SERVICE_WORKER => "script",
        RT_CSP_REPORT => "csp_report",
        RT_PLUGIN_RESOURCE => "object",
        RT_NAVIGATION_PRELOAD_MAIN_FRAME => "main_frame",
        RT_NAVIGATION_PRELOAD_SUB_FRAME => "sub_frame",
        _ => "other",
    }
}

/// Finds the filter engine's name for a type of resource.
pub fn cef_resource_type_to_adblock_request_type(
    resource_type: &cef::ResourceType,
) -> (name: &'static str)
    ensures
        name == request_type_of(resource_type_number(*resource_type)),
{
    request_type(resource_type_code(resource_type))
}

/// What the browser says about a resource that it is about to load.
pub struct ResourceRequest {
    pub url: String,
    pub referrer_url: String,
    pub resource_type: cef::ResourceType,
}

impl ResourceRequest {
    /// The filter engine's form of this request.
    pub open spec fn in_engine_form(self) -> Result<
        adblock::request::Request,
        AdblockRequestError,
    > {
        engine_request(
            self.url@,
            self.referrer_url@,
            request_type_of(resource_type_number(self.resource_type))@,
        )
    }
}

/// Brings a request into the form that the filter engine takes.
pub fn cef_request_to_adblock_request(request: &ResourceRequest) -> (converted: Result<
    adblock::request::Request,
    AdblockRequestError,
>)
    ensures
        converted == request.in_engine_form(),
        converted matches Err(error) ==> error == AdblockRequestError::HostnameParseError,
{
    new_engine_request(
        request.url.as_str(),
        request.referrer_url.as_str(),
        cef_resource_type_to_adblock_request_type(&request.resource_type),
    )
}

/// Whether a resource is loaded.
#[derive(Clone, Copy, Debug, PartialEq, Eq, Structural)]
pub enum LoadDecision {
    /// The resource is blocked.
    Cancel,
    /// The resource is loaded.
    Continue,
    /// The resource is loaded, for the engine could not be asked about it.
    ContinueUnchecked { error: AdblockRequestError },
}

/// The decision about a resource, from what the engine says of it: a matched
/// request is canceled, and one that it could not be asked about is not.
pub open spec fn decision_for(verdict: Result<bool, AdblockRequestError>) -> LoadDecision {
    match verdict {
        Ok(true) => LoadDecision::Cancel,
        Ok(false) => LoadDecision::Continue,
        Err(error) => LoadDecision::ContinueUnchecked { error },
    }
}

/// Decides about a resource from what the engine says of it.
pub fn decide_load(verdict: Result<bool, AdblockRequestError>) -> (decision: LoadDecision)
    ensures
        decision == decision_for(verdict),
{
    match verdict {
        Ok(matched) => {
            if matched {
                LoadDecision::Cancel
            } else {
                LoadDecision::Continue
            }
        },
        Err(error) => LoadDecision::ContinueUnchecked { error },
    }
}

/// What an engine says of a request.
pub open spec fn verdict_on(
    engine: adblock::Engine,
    request: ResourceRequest,
) -> Result<bool, AdblockRequestError> {
    match request.in_engine_form() {
        Ok(converted) => Ok(rule_matches(engine, converted)),
        Err(error) => Err(error),
    }
}

/// The decision about a resource: without an engine or a request it is loaded.
pub open spec fn load_decision(
    engine: Option<Rc<adblock::Engine>>,
    request: Option<ResourceRequest>,
) -> LoadDecision {
    match (engine, request) {
        (Some(engine), Some(request)) => decision_for(verdict_on(*engine, request)),
        _ => LoadDecision::Continue,
    }
}

/// Makes the handlers for the resources of a browsing context.
pub struct OsrRequestContextHandler {
    pub adblock_engine: Option<Rc<adblock::Engine>>,
}

/// Decides about the resources of a browsing context.
pub struct OsrResourceRequestHandler {
    adblock_engine: Option<Rc<adblock::Engine>>,
}

/// Shares an engine, where there is one.
fn share_engine(engine: &Option<Rc<adblock::Engine>>) -> (shared: Option<Rc<adblock::Engine>>)
    ensures
        shared == *engine,
{
    match engine {
        Some(engine) => Some(engine.clone()),
        None => None,
    }
}

impl Clone for OsrRequestContextHandler {
    /// Makes a handler that shares the engine of this one.
    fn clone(&self) -> (copy: Self)
        ensures
            copy == *self,
    {
        OsrRequestContextHandler { adblock_engine: share_engine(&self.adblock_engine) }
    }
}

impl Clone for OsrResourceRequestHandler {
    /// Makes a handler that shares the engine of this one.
    fn clone(&self) -> (copy: Self)
        ensures
            copy == *self,
    {
        OsrResourceRequestHandler { adblock_engine: share_engine(&self.adblock_engine) }
    }
}

impl OsrRequestContextHandler {
    /// Creates a handler that blocks by the engine, where there is one.
    pub fn new(adblock_engine: Option<Rc<adblock::Engine>>) -> (handler: OsrRequestContextHandler)
        ensures
            handler.adblock_engine == adblock_engine,
    {
        OsrRequestContextHandler { adblock_engine }
    }

    /// Makes the handler for a resource: it shares the engine of the context.
    pub fn resource_request_handler(&self) -> (handler: Option<OsrResourceRequestHandler>)
        ensures
            handler matches Some(handler) && handler.engine() == self.adblock_engine,
    {
        Some(OsrResourceRequestHandler { adblock_engine: share_engine(&self.adblock_engine) })
    }
}

impl OsrResourceRequestHandler {
    /// The engine that this handler asks.
    pub closed spec fn engine(self) -> Option<Rc<adblock::Engine>> {
        self.adblock_engine
    }

    /// A resource is about to be loaded.
    pub fn on_before_resource_load(
        &self,
        request: Option<ResourceRequest>,
    ) -> (decision: LoadDecision)
        ensures
            decision == load_decision(self.engine(), request),
    {
        if let Some(engine) = &self.adblock_engine {
            if let Some(request) = request {
                let verdict = match cef_request_to_adblock_request(&request) {
                    Ok(converted) => Ok(check_request(engine, &converted)),
                    Err(error) => Err(error),
                };
                return decide_load(verdict);
            }
        }
        LoadDecision::Continue
    }
}

/// A resource is blocked only where an engine was asked about it and a rule of
/// that engine matched it.
pub proof fn only_matched_resources_are_blocked(
    engine: Option<Rc<adblock::Engine>>,
    request: Option<ResourceRequest>,
)
    ensures
        load_decision(engine, request) == LoadDecision::Cancel <==> engine is Some
            && request is Some && request->0.in_engine_form() is Ok && rule_matches(
            *engine->0,
            request->0.in_engine_form()->Ok_0,
        ),
{
}

/// Without an engine everything is loaded.
pub proof fn without_an_engine_nothing_is_blocked(request: Option<ResourceRequest>)
    ensures
        load_decision(None, request) == LoadDecision::Continue,
{
}

} // verus!
