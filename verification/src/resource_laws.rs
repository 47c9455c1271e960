//! What ad blocking asks the filter engine and what it makes of the answer.

use crate::adblocking::{
    cef_request_to_adblock_request, cef_resource_type_to_adblock_request_type, decide_load,
    engine_request, request_type, rule_matches, AdblockRequestError, LoadDecision,
    OsrRequestContextHandler, OsrResourceRequestHandler, ResourceRequest,
};
use crate::codes::resource_type_number;
use std::rc::Rc;
use vstd::prelude::*;

verus! {

/// Each CEF number for a type of resource has the name that the filter engine
/// knows it by, and every number without one is another resource.
pub proof fn resource_numbers_have_their_names(code: u32, name: &'static str)
    requires
        call_ensures(request_type, (code,), name),
    ensures
        code == 0 || code == 19 ==> name@ == "main_frame"@,
        code == 1 || code == 20 ==> name@ == "sub_frame"@,
        code == 2 ==> name@ == "stylesheet"@,
        code == 3 || code == 9 || code == 10 || code == 15 ==> name@ == "script"@,
        code == 4 || code == 12 ==> name@ == "image"@,
        code == 5 ==> name@ == "font"@,
        code == 6 ==> name@ == "object_subrequest"@,
        code == 7 || code == 17 ==> name@ == "object"@,
        code == 8 ==> name@ == "media"@,
        code == 13 ==> name@ == "xhr"@,
        code == 14 ==> name@ == "ping"@,
        code == 16 ==> name@ == "csp_report"@,
        code == 11 || code == 18 || code > 20 ==> name@ == "other"@,
{
}

/// A type of resource has the name of its number.
pub proof fn a_resource_type_has_the_name_of_its_number(
    resource_type: &cef::ResourceType,
    of_number: &'static str,
    of_type: &'static str,
)
    requires
        call_ensures(request_type, (resource_type_number(*resource_type),), of_number),
        call_ensures(cef_resource_type_to_adblock_request_type, (resource_type,), of_type),
    ensures
        of_type@ == of_number@,
{
}

/// The engine is asked about a resource by its own address, its own referrer and
/// the engine's name for its own type.
pub proof fn a_request_is_put_to_the_engine_as_it_is(
    request: ResourceRequest,
    name: &'static str,
    converted: Result<adblock::request::Request, AdblockRequestError>,
)
    requires
        call_ensures(cef_resource_type_to_adblock_request_type, (&request.resource_type,), name),
        call_ensures(cef_request_to_adblock_request, (&request,), converted),
    ensures
        converted == engine_request(request.url@, request.referrer_url@, name@),
        request.in_engine_form() == engine_request(request.url@, request.referrer_url@, name@),
        converted is Err ==> converted->Err_0 == AdblockRequestError::HostnameParseError,
{
}

/// The engine is asked about a resource under the name for the number of its
/// type.
pub proof fn a_request_goes_under_the_name_of_its_number(request: ResourceRequest)
    ensures
        ({
            let number = resource_type_number(request.resource_type);
            let asked = request.in_engine_form();
            let url = request.url@;
            let source = request.referrer_url@;
            &&& number == 0 || number == 19 ==> asked == engine_request(
                url,
                source,
                "main_frame"@,
            )
            &&& number == 1 || number == 20 ==> asked == engine_request(url, source, "sub_frame"@)
            &&& number == 2 ==> asked == engine_request(url, source, "stylesheet"@)
            &&& number == 3 || number == 9 || number == 10 || number == 15 ==> asked
                == engine_request(url, source, "script"@)
            &&& number == 4 || number == 12 ==> asked == engine_request(url, source, "image"@)
            &&& number == 5 ==> asked == engine_request(url, source, "font"@)
            &&& number == 6 ==> asked == engine_request(url, source, "object_subrequest"@)
            &&& number == 7 || number == 17 ==> asked == engine_request(url, source, "object"@)
            &&& number == 8 ==> asked == engine_request(url, source, "media"@)
            &&& number == 13 ==> asked == engine_request(url, source, "xhr"@)
            &&& number == 14 ==> asked == engine_request(url, source, "ping"@)
            &&& number == 16 ==> asked == engine_request(url, source, "csp_report"@)
            &&& number == 11 || number == 18 || number > 20 ==> asked == engine_request(
                url,
                source,
                "other"@,
            )
        }),
{
}

/// A resource is canceled exactly where the engine matched it, and one that the
/// engine could not be asked about goes on with the reason.
pub proof fn a_verdict_decides(
    verdict: Result<bool, AdblockRequestError>,
    decision: LoadDecision,
)
    requires
        call_ensures(decide_load, (verdict,), decision),
    ensures
        decision == LoadDecision::Cancel <==> verdict is Ok && verdict->Ok_0,
        decision == LoadDecision::Continue <==> verdict is Ok && !verdict->Ok_0,
        verdict is Err ==> decision == (LoadDecision::ContinueUnchecked { error: verdict->Err_0 }),
{
}

/// A resource is blocked exactly where the handler has an engine and a rule of
/// that engine matches the resource under its own address, referrer and type. It
/// goes on unchecked exactly where the engine has no form for it.
pub proof fn resources_are_blocked_by_the_rules(
    handler: OsrResourceRequestHandler,
    request: ResourceRequest,
    name: &'static str,
    decision: LoadDecision,
)
    requires
        call_ensures(cef_resource_type_to_adblock_request_type, (&request.resource_type,), name),
        call_ensures(
            OsrResourceRequestHandler::on_before_resource_load,
            (&handler, Some(request)),
            decision,
        ),
    ensures
        ({
            let asked = engine_request(request.url@, request.referrer_url@, name@);
            let engine = handler.engine();
            &&& decision == LoadDecision::Cancel <==> engine is Some && asked is Ok
                && rule_matches(*engine->0, asked->Ok_0)
            &&& decision is ContinueUnchecked <==> engine is Some && asked is Err
            &&& decision is ContinueUnchecked ==> decision->error == asked->Err_0
        }),
{
}

/// Without a request or an engine nothing is blocked.
pub proof fn nothing_is_blocked_without_a_reason(
    handler: OsrResourceRequestHandler,
    request: Option<ResourceRequest>,
    decision: LoadDecision,
)
    requires
        request is None || handler.engine() is None,
        call_ensures(
            OsrResourceRequestHandler::on_before_resource_load,
            (&handler, request),
            decision,
        ),
    ensures
        decision == LoadDecision::Continue,
{
}

/// The resources of a context are decided on by the engine that the context was
/// made with.
pub proof fn a_context_hands_its_engine_on(
    engine: Option<Rc<adblock::Engine>>,
    context: OsrRequestContextHandler,
    handler: Option<OsrResourceRequestHandler>,
)
    requires
        call_ensures(OsrRequestContextHandler::new, (engine,), context),
        call_ensures(OsrRequestContextHandler::resource_request_handler, (&context,), handler),
    ensures
        handler is Some,
        handler->0.engine() == engine,
{
}

/// Cloned handlers ask the engine of the handler that they were cloned from.
pub proof fn cloned_handlers_ask_the_same_engine(
    context: OsrRequestContextHandler,
    context_copy: OsrRequestContextHandler,
    handler: OsrResourceRequestHandler,
    handler_copy: OsrResourceRequestHandler,
)
    requires
        cloned(context, context_copy),
        cloned(handler, handler_copy),
    ensures
        context_copy.adblock_engine == context.adblock_engine,
        handler_copy.engine() == handler.engine(),
{
}

} // verus!
