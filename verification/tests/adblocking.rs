use adblock::lists::ParseOptions;
use adblock::Engine;
use gdcef::adblocking::{
    cef_request_to_adblock_request, cef_resource_type_to_adblock_request_type, decide_load,
    request_type, AdblockRequestError, LoadDecision, OsrRequestContextHandler, ResourceRequest,
};
use std::rc::Rc;

fn request(url: &str, resource_type: cef::ResourceType) -> ResourceRequest {
    ResourceRequest {
        url: url.to_string(),
        referrer_url: "https://page.example/".to_string(),
        resource_type,
    }
}

fn decide(rules: Option<&[&str]>, request: Option<ResourceRequest>) -> LoadDecision {
    let engine = rules.map(|rules| Rc::new(Engine::from_rules(rules, ParseOptions::default())));
    let context = OsrRequestContextHandler::new(engine);
    let handler = context.resource_request_handler().unwrap();
    handler.on_before_resource_load(request)
}

#[test]
fn resource_types_have_names() {
    let names = [
        (cef::ResourceType::MAIN_FRAME, "main_frame"),
        (cef::ResourceType::SUB_FRAME, "sub_frame"),
        (cef::ResourceType::STYLESHEET, "stylesheet"),
        (cef::ResourceType::SCRIPT, "script"),
        (cef::ResourceType::IMAGE, "image"),
        (cef::ResourceType::FONT_RESOURCE, "font"),
        (cef::ResourceType::SUB_RESOURCE, "object_subrequest"),
        (cef::ResourceType::OBJECT, "object"),
        (cef::ResourceType::MEDIA, "media"),
        (cef::ResourceType::WORKER, "script"),
        (cef::ResourceType::SHARED_WORKER, "script"),
        (cef::ResourceType::PREFETCH, "other"),
        (cef::ResourceType::FAVICON, "image"),
        (cef::ResourceType::XHR, "xhr"),
        (cef::ResourceType::PING, "ping"),
        (cef::ResourceType::SERVICE_WORKER, "script"),
        (cef::ResourceType::CSP_REPORT, "csp_report"),
        (cef::ResourceType::PLUGIN_RESOURCE, "object"),
        (cef::ResourceType::NAVIGATION_PRELOAD_MAIN_FRAME, "main_frame"),
        (cef::ResourceType::NAVIGATION_PRELOAD_SUB_FRAME, "sub_frame"),
        (cef::ResourceType::NUM_VALUES, "other"),
    ];
    for (resource_type, name) in names {
        assert_eq!(cef_resource_type_to_adblock_request_type(&resource_type), name);
    }
    assert_eq!(request_type(18), "other");
    assert_eq!(request_type(u32::MAX), "other");
}

#[test]
fn requests_are_converted_with_their_addresses_and_type() {
    let converted =
        cef_request_to_adblock_request(&request("https://ads.example/x.js", cef::ResourceType::SCRIPT))
            .unwrap();
    assert_eq!(converted.url, "https://ads.example/x.js");
    assert_eq!(converted.hostname, "ads.example");
    assert_eq!(converted.request_type, adblock::request::RequestType::Script);
    assert!(converted.is_third_party);
}

#[test]
fn addresses_without_a_host_are_rejected() {
    let converted = cef_request_to_adblock_request(&request("nowhere", cef::ResourceType::SCRIPT));
    assert!(matches!(converted, Err(AdblockRequestError::HostnameParseError)));
}

#[test]
fn matched_resources_are_blocked() {
    let rules: &[&str] = &["||ads.example^$script"];
    assert_eq!(
        decide(Some(rules), Some(request("https://ads.example/x.js", cef::ResourceType::SCRIPT))),
        LoadDecision::Cancel
    );
    assert_eq!(
        decide(Some(rules), Some(request("https://ads.example/x.png", cef::ResourceType::IMAGE))),
        LoadDecision::Continue
    );
    assert_eq!(
        decide(Some(rules), Some(request("https://other.example/x.js", cef::ResourceType::SCRIPT))),
        LoadDecision::Continue
    );
}

#[test]
fn unreadable_addresses_are_loaded_unchecked() {
    let rules: &[&str] = &["||ads.example^"];
    assert_eq!(
        decide(Some(rules), Some(request("nowhere", cef::ResourceType::SCRIPT))),
        LoadDecision::ContinueUnchecked { error: AdblockRequestError::HostnameParseError }
    );
}

#[test]
fn without_engine_or_request_everything_is_loaded() {
    let rules: &[&str] = &["||ads.example^"];
    assert_eq!(
        decide(None, Some(request("https://ads.example/x.js", cef::ResourceType::SCRIPT))),
        LoadDecision::Continue
    );
    assert_eq!(decide(Some(rules), None), LoadDecision::Continue);
}

#[test]
fn every_verdict_has_its_decision() {
    assert_eq!(decide_load(Ok(true)), LoadDecision::Cancel);
    assert_eq!(decide_load(Ok(false)), LoadDecision::Continue);
    for error in [
        AdblockRequestError::HostnameParseError,
        AdblockRequestError::SourceHostnameParseError,
        AdblockRequestError::UnicodeDecodingError,
    ] {
        assert_eq!(decide_load(Err(error)), LoadDecision::ContinueUnchecked { error });
    }
}

#[test]
fn the_referrer_tells_third_parties_apart() {
    let rules: &[&str] = &["||ads.example^$third-party"];
    let from = |referrer_url: &str| ResourceRequest {
        referrer_url: referrer_url.to_string(),
        ..request("https://ads.example/x.js", cef::ResourceType::SCRIPT)
    };
    assert_eq!(decide(Some(rules), Some(from("https://page.example/"))), LoadDecision::Cancel);
    assert_eq!(decide(Some(rules), Some(from("https://ads.example/"))), LoadDecision::Continue);
    assert_eq!(decide(Some(rules), Some(from(""))), LoadDecision::Cancel);
}

#[test]
fn cloned_handlers_share_the_engine() {
    let rules: &[&str] = &["||ads.example^"];
    let engine = Rc::new(Engine::from_rules(rules, ParseOptions::default()));
    let context = OsrRequestContextHandler::new(Some(engine.clone())).clone();
    assert!(Rc::ptr_eq(context.adblock_engine.as_ref().unwrap(), &engine));
    let handler = context.resource_request_handler().unwrap().clone();
    assert_eq!(
        handler.on_before_resource_load(Some(request(
            "https://ads.example/x.js",
            cef::ResourceType::SCRIPT
        ))),
        LoadDecision::Cancel
    );
}
