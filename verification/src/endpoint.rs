//! The two endpoints as decisions: what a request is answered with at once,
//! what it asks of the backend, and what the client gets for each turn that
//! the exchange with the backend takes. Nothing here touches a socket or a
//! process.

use vstd::prelude::*;
use vstd::slice::slice_to_vec;
use vstd::string::*;
use vstd::utf8::*;
use crate::auth::{
    admission, authenticate, scheme, standard_decoding, value_of, Credentials, CredentialsView,
};
use crate::bridge::{
    answers, lemma_answer_waits_for_the_end, lemma_no_answer_without_output, run, transition,
    BridgeAction, BridgeActionView, BridgeErrorView, BridgeEventView, SessionState,
};
use crate::pktline::{frame, framed, lemma_frame_round_trip, lemma_preamble_is_fixed, preamble};
use crate::service::{resolution, resolve, Mode, Service};
use crate::text::{ascii_bytes, ascii_bytes_of, has_prefix};

verus! {

/// The body of a response.
#[derive(Debug, PartialEq, Eq)]
pub enum ReplyBody {
    /// These bytes.
    Fixed(Vec<u8>),
    /// Whatever the engine writes to its standard output, as it comes and
    /// unchanged.
    EngineOutput,
}

/// A body, with a sequence for its bytes.
pub enum ReplyBodyView {
    Fixed(Seq<u8>),
    EngineOutput,
}

impl View for ReplyBody {
    type V = ReplyBodyView;

    open spec fn view(&self) -> ReplyBodyView {
        match self {
            ReplyBody::Fixed(bytes) => ReplyBodyView::Fixed(bytes@),
            ReplyBody::EngineOutput => ReplyBodyView::EngineOutput,
        }
    }
}

/// A response: the status, the two headers this server ever sets, and the
/// body.
#[derive(Debug, PartialEq, Eq)]
pub struct HttpResponse {
    pub status: u16,
    pub content_type: Option<String>,
    pub www_authenticate: Option<String>,
    pub body: ReplyBody,
}

/// A response, with sequences for its texts and bytes.
pub struct HttpResponseView {
    pub status: u16,
    pub content_type: Option<Seq<char>>,
    pub www_authenticate: Option<Seq<char>>,
    pub body: ReplyBodyView,
}

impl View for HttpResponse {
    type V = HttpResponseView;

    open spec fn view(&self) -> HttpResponseView {
        HttpResponseView {
            status: self.status,
            content_type: match self.content_type {
                Some(value) => Some(value@),
                None => None,
            },
            www_authenticate: match self.www_authenticate {
                Some(value) => Some(value@),
                None => None,
            },
            body: self.body@,
        }
    }
}

/// What to do with a request for the advertisement.
pub enum InfoRefsDecision {
    /// Answer at once; no engine is started.
    Reply(HttpResponse),
    /// Run the engine for `service` and answer with its framed output. The
    /// credentials are well formed; whether they are anyone's is for the
    /// caller to find out before it starts the engine.
    Advertise { service: Service, credentials: Credentials },
}

/// A decision on a request for the advertisement, with views for its parts.
pub enum InfoRefsDecisionView {
    Reply(HttpResponseView),
    Advertise { service: Service, credentials: CredentialsView },
}

impl View for InfoRefsDecision {
    type V = InfoRefsDecisionView;

    open spec fn view(&self) -> InfoRefsDecisionView {
        match self {
            InfoRefsDecision::Reply(response) => InfoRefsDecisionView::Reply(response@),
            InfoRefsDecision::Advertise { service, credentials } => InfoRefsDecisionView::Advertise {
                service: *service,
                credentials: credentials@,
            },
        }
    }
}

/// What to do with an RPC request.
pub enum RpcDecision {
    /// Answer at once; no engine is started.
    Reply(HttpResponse),
    /// Run the engine for `service` on the request body.
    Exec { service: Service },
}

/// A decision on an RPC request, with a view for its response.
pub enum RpcDecisionView {
    Reply(HttpResponseView),
    Exec { service: Service },
}

impl View for RpcDecision {
    type V = RpcDecisionView;

    open spec fn view(&self) -> RpcDecisionView {
        match self {
            RpcDecision::Reply(response) => RpcDecisionView::Reply(response@),
            RpcDecision::Exec { service } => RpcDecisionView::Exec { service: *service },
        }
    }
}

/// The value of the `WWW-Authenticate` header of a challenge.
pub open spec fn challenge_header() -> Seq<char> {
    "Basic realm=\"Git Server\""@
}

/// The content type of an advertisement:
/// `application/x-git-<name>-advertisement`.
pub open spec fn advertisement_type(service: Service) -> Seq<char> {
    "application/x-git-"@ + service.spec_name() + "-advertisement"@
}

/// The content type of an RPC result: `application/x-git-<name>-result`.
pub open spec fn result_type(service: Service) -> Seq<char> {
    "application/x-git-"@ + service.spec_name() + "-result"@
}

/// 404: the request names no supported service.
pub open spec fn not_found() -> HttpResponseView {
    HttpResponseView {
        status: 404,
        content_type: None,
        www_authenticate: None,
        body: ReplyBodyView::Fixed(ascii_bytes("Not found"@)),
    }
}

/// 401 with a challenge: the same for every request that was not admitted,
/// whatever the reason.
pub open spec fn unauthorized() -> HttpResponseView {
    HttpResponseView {
        status: 401,
        content_type: None,
        www_authenticate: Some(challenge_header()),
        body: ReplyBodyView::Fixed(ascii_bytes("Authentication required"@)),
    }
}

/// 500: the exchange with the engine failed. The body says no more.
pub open spec fn server_error() -> HttpResponseView {
    HttpResponseView {
        status: 500,
        content_type: None,
        www_authenticate: None,
        body: ReplyBodyView::Fixed(ascii_bytes("Internal server error"@)),
    }
}

/// 200 with the framed advertisement.
pub open spec fn advertisement(service: Service, output: Seq<u8>) -> HttpResponseView {
    HttpResponseView {
        status: 200,
        content_type: Some(advertisement_type(service)),
        www_authenticate: None,
        body: ReplyBodyView::Fixed(framed(service, output)),
    }
}

/// 200 with the engine's output as the body.
pub open spec fn rpc_result(service: Service) -> HttpResponseView {
    HttpResponseView {
        status: 200,
        content_type: Some(result_type(service)),
        www_authenticate: None,
        body: ReplyBodyView::EngineOutput,
    }
}

/// The response, if any, that an action of the session gives to a request
/// for the advertisement. The client is answered at the end of the
/// exchange: with the framed output after a success, with the server error
/// after a failure.
pub open spec fn advertisement_response(
    service: Service,
    action: BridgeActionView,
    output: Seq<u8>,
) -> Option<HttpResponseView> {
    match action {
        BridgeActionView::Succeed { answered: false } => Some(advertisement(service, output)),
        BridgeActionView::Fail { answered: false, .. } => Some(server_error()),
        _ => None,
    }
}

/// The response, if any, that an action of the session gives to an RPC
/// request. The client is answered with the engine's output as soon as that
/// output begins, or when the exchange ends well without any; and with the
/// server error when the exchange fails before there was any output. An
/// action that comes after the answer gives none.
pub open spec fn rpc_response(service: Service, action: BridgeActionView) -> Option<
    HttpResponseView,
> {
    match action {
        BridgeActionView::Respond => Some(rpc_result(service)),
        BridgeActionView::Succeed { answered: false } => Some(rpc_result(service)),
        BridgeActionView::Fail { answered: false, .. } => Some(server_error()),
        _ => None,
    }
}

/// The view of a response that may be none.
pub open spec fn reply_view(reply: Option<HttpResponse>) -> Option<HttpResponseView> {
    match reply {
        Some(response) => Some(response@),
        None => None,
    }
}

/// The decision on a request for the advertisement: admission comes first,
/// then the service.
pub open spec fn info_refs_decision(
    authorization: Option<Seq<u8>>,
    service_param: Seq<char>,
) -> InfoRefsDecisionView {
    match admission(authorization) {
        Err(_) => InfoRefsDecisionView::Reply(unauthorized()),
        Ok(credentials) => match resolution(service_param, Mode::Advertise) {
            None => InfoRefsDecisionView::Reply(not_found()),
            Some(service) => InfoRefsDecisionView::Advertise { service, credentials },
        },
    }
}

/// The decision on an RPC request. This endpoint asks for no credentials.
pub open spec fn rpc_decision(path_segment: Seq<char>) -> RpcDecisionView {
    match resolution(path_segment, Mode::Exec) {
        None => RpcDecisionView::Reply(not_found()),
        Some(service) => RpcDecisionView::Exec { service },
    }
}

fn fixed_body(text: &str) -> (body: ReplyBody)
    requires
        is_ascii_chars(text@),
    ensures
        body@ == ReplyBodyView::Fixed(ascii_bytes(text@)),
{
    ReplyBody::Fixed(slice_to_vec(ascii_bytes_of(text)))
}

/// The response to a request that names no supported service.
pub fn not_found_reply() -> (response: HttpResponse)
    ensures
        response@ == not_found(),
{
    proof {
        reveal_strlit("Not found");
    }
    HttpResponse {
        status: 404,
        content_type: None,
        www_authenticate: None,
        body: fixed_body("Not found"),
    }
}

/// The response to a request that was not admitted.
pub fn challenge_reply() -> (response: HttpResponse)
    ensures
        response@ == unauthorized(),
{
    proof {
        reveal_strlit("Authentication required");
    }
    HttpResponse {
        status: 401,
        content_type: None,
        www_authenticate: Some("Basic realm=\"Git Server\"".to_owned()),
        body: fixed_body("Authentication required"),
    }
}

/// The response to a request whose exchange with the engine failed.
pub fn server_error_reply() -> (response: HttpResponse)
    ensures
        response@ == server_error(),
{
    proof {
        reveal_strlit("Internal server error");
    }
    HttpResponse {
        status: 500,
        content_type: None,
        www_authenticate: None,
        body: fixed_body("Internal server error"),
    }
}

/// The content type of the advertisement of `service`.
pub fn advertisement_content_type(service: Service) -> (content_type: String)
    ensures
        content_type@ == advertisement_type(service),
{
    let mut content_type = "application/x-git-".to_owned();
    content_type.append(service.name());
    content_type.append("-advertisement");
    content_type
}

/// The content type of the RPC result of `service`.
pub fn result_content_type(service: Service) -> (content_type: String)
    ensures
        content_type@ == result_type(service),
{
    let mut content_type = "application/x-git-".to_owned();
    content_type.append(service.name());
    content_type.append("-result");
    content_type
}

/// The response to a request for the advertisement that `action` calls
/// for, if it calls for one; `output` is what the engine has written to its
/// standard output. Nothing of a failure reaches the client.
pub fn advertisement_reply(service: Service, action: &BridgeAction, output: &[u8]) -> (reply:
    Option<HttpResponse>)
    ensures
        reply_view(reply) == advertisement_response(service, action@, output@),
{
    match action {
        BridgeAction::Succeed { answered: false } => Some(
            HttpResponse {
                status: 200,
                content_type: Some(advertisement_content_type(service)),
                www_authenticate: None,
                body: ReplyBody::Fixed(frame(service, output)),
            },
        ),
        BridgeAction::Fail { answered: false, .. } => Some(server_error_reply()),
        _ => None,
    }
}

/// The response to an RPC request that `action` calls for, if it calls for
/// one. Nothing of a failure reaches the client.
pub fn rpc_reply(service: Service, action: &BridgeAction) -> (reply: Option<HttpResponse>)
    ensures
        reply_view(reply) == rpc_response(service, action@),
{
    match action {
        BridgeAction::Respond | BridgeAction::Succeed { answered: false } => Some(
            HttpResponse {
                status: 200,
                content_type: Some(result_content_type(service)),
                www_authenticate: None,
                body: ReplyBody::EngineOutput,
            },
        ),
        BridgeAction::Fail { answered: false, .. } => Some(server_error_reply()),
        _ => None,
    }
}

/// Decides on `GET .../info/refs?service=<service_param>`, given the value
/// of the `Authorization` header if there is one.
pub fn decide_info_refs(authorization: Option<&[u8]>, service_param: &str) -> (decision:
    InfoRefsDecision)
    ensures
        decision@ == info_refs_decision(value_of(authorization), service_param@),
{
    match authenticate(authorization) {
        Err(_) => InfoRefsDecision::Reply(challenge_reply()),
        Ok(credentials) => match resolve(service_param, Mode::Advertise) {
            Err(_) => InfoRefsDecision::Reply(not_found_reply()),
            Ok(service) => InfoRefsDecision::Advertise { service, credentials },
        },
    }
}

/// Decides on `POST .../<path_segment>`.
pub fn decide_rpc(path_segment: &str) -> (decision: RpcDecision)
    ensures
        decision@ == rpc_decision(path_segment@),
{
    match resolve(path_segment, Mode::Exec) {
        Err(_) => RpcDecision::Reply(not_found_reply()),
        Ok(service) => RpcDecision::Exec { service },
    }
}

/// A request that is not admitted is challenged, whatever the reason and
/// whatever service it asks for: the status is 401, the challenge header is
/// there, and no engine is started.
pub proof fn lemma_unadmitted_is_challenged(
    authorization: Option<Seq<u8>>,
    service_param: Seq<char>,
)
    requires
        admission(authorization) is Err,
    ensures
        info_refs_decision(authorization, service_param) == InfoRefsDecisionView::Reply(
            unauthorized(),
        ),
        unauthorized().status == 401,
        unauthorized().www_authenticate == Some(challenge_header()),
{
}

/// A request without an `Authorization` header is challenged.
pub proof fn lemma_without_header_is_challenged(service_param: Seq<char>)
    ensures
        info_refs_decision(None, service_param) == InfoRefsDecisionView::Reply(unauthorized()),
{
}

/// A Basic header whose payload is not base64 is answered like any other
/// request that is not admitted: with 401, never with a server error.
pub proof fn lemma_bad_payload_is_challenged(value: Seq<u8>, service_param: Seq<char>)
    requires
        has_prefix(value, scheme()),
        standard_decoding(value.skip(scheme().len() as int)) is None,
    ensures
        info_refs_decision(Some(value), service_param) == InfoRefsDecisionView::Reply(
            unauthorized(),
        ),
        unauthorized().status != 500,
{
}

/// An admitted request for `git-upload-pack` has the engine run for the
/// advertisement of `upload-pack`, and where that goes well, whatever the
/// engine writes, the response has status 200, the content type
/// `application/x-git-upload-pack-advertisement`, and a body that starts
/// with `001e# service=git-upload-pack`, a newline and `0000`, and goes on
/// with what the engine wrote.
pub proof fn lemma_upload_pack_advertisement(authorization: Option<Seq<u8>>, output: Seq<u8>)
    requires
        admission(authorization) is Ok,
    ensures
        info_refs_decision(authorization, "git-upload-pack"@) == (
        InfoRefsDecisionView::Advertise {
            service: Service::AdvertiseUploadPack,
            credentials: admission(authorization)->Ok_0,
        }),
        advertisement_response(
            Service::AdvertiseUploadPack,
            BridgeActionView::Succeed { answered: false },
            output,
        ) == Some(
            HttpResponseView {
                status: 200,
                content_type: Some("application/x-git-upload-pack-advertisement"@),
                www_authenticate: None,
                body: ReplyBodyView::Fixed(
                    ascii_bytes("001e# service=git-upload-pack\n0000"@) + output,
                ),
            },
        ),
{
    reveal_strlit("application/x-git-");
    reveal_strlit("upload-pack");
    reveal_strlit("-advertisement");
    reveal_strlit("application/x-git-upload-pack-advertisement");
    assert(advertisement_type(Service::AdvertiseUploadPack)
        =~= "application/x-git-upload-pack-advertisement"@);
    lemma_preamble_is_fixed(Service::AdvertiseUploadPack);
}

/// An RPC request on a path segment that is not one of the two service
/// tokens is answered with 404, and no engine is started. The decision reads
/// nothing but the segment, so no header changes it.
pub proof fn lemma_unknown_segment_is_not_found(path_segment: Seq<char>)
    requires
        path_segment != "git-upload-pack"@,
        path_segment != "git-receive-pack"@,
    ensures
        rpc_decision(path_segment) == RpcDecisionView::Reply(not_found()),
        not_found().status == 404,
{
}

/// A failure that comes before the client has its answer is answered with
/// status 500, and with one and the same response whatever the failure and
/// whatever the engine wrote to its standard error. A failure that comes
/// after the answer gives no second response.
pub proof fn lemma_failures_look_alike(
    service: Service,
    error: BridgeErrorView,
    answered: bool,
    output: Seq<u8>,
)
    ensures
        advertisement_response(service, BridgeActionView::Fail { error, answered }, output) == if
            answered {
            None
        } else {
            Some(server_error())
        },
        rpc_response(service, BridgeActionView::Fail { error, answered }) == if answered {
            None
        } else {
            Some(server_error())
        },
        server_error().status == 500,
{
}

/// An action gives a response to an RPC exactly when it has the client
/// answered, and to a request for the advertisement exactly when it does so
/// at the end of the exchange.
pub proof fn lemma_reply_where_answered(service: Service, action: BridgeActionView, output: Seq<u8>)
    ensures
        rpc_response(service, action) is Some <==> answers(action),
        advertisement_response(service, action, output) is Some <==> answers(action) && !(action
            is Respond),
{
}

/// What an RPC is answered with. While the client has no answer: the first
/// output of the engine gives status 200 with the engine's output as the
/// body; the end of an exchange that went well gives the same; and the end
/// of an exchange that failed, be it by the exit status or by a failed
/// write, gives the server error with status 500, never 200.
pub proof fn lemma_rpc_answer(state: SessionState, event: BridgeEventView)
    requires
        !state.answered,
    ensures
        ({
            let action = transition(state, event).1;
            &&& action is Respond || action is Succeed ==> rpc_response(state.service, action)
                == Some(rpc_result(state.service))
            &&& action is Fail ==> rpc_response(state.service, action) == Some(server_error())
            &&& rpc_result(state.service).status == 200
            &&& server_error().status == 500
        }),
{
}

/// An RPC whose exchange fails is answered with the server error, status
/// 500, wherever the failure could be known before the answer: where the
/// engine had written no output before `events` ended, and where a write had
/// failed before there was any. `end` is the event that ends the exchange.
pub proof fn lemma_failed_rpc_is_500(
    state: SessionState,
    events: Seq<BridgeEventView>,
    end: BridgeEventView,
)
    requires
        !state.answered,
        state.write_failed || forall|i: int|
            0 <= i < events.len() ==> !(#[trigger] events[i] is Output),
        transition(run(state, events), end).1 is Fail,
    ensures
        rpc_response(state.service, transition(run(state, events), end).1) == Some(server_error()),
        server_error().status == 500,
{
    if state.write_failed {
        lemma_answer_waits_for_the_end(state, events);
    } else {
        lemma_no_answer_without_output(state, events);
    }
}

/// What a request for the advertisement is answered with: at the end of an
/// exchange that went well, the framed output with status 200; at the end of
/// one that failed, the server error with status 500. The session of an
/// advertisement never has the client answered before the end.
pub proof fn lemma_advertisement_answer(
    state: SessionState,
    event: BridgeEventView,
    output: Seq<u8>,
)
    requires
        !state.answered,
        state.service.spec_mode() == Mode::Advertise,
    ensures
        ({
            let action = transition(state, event).1;
            &&& !transition(state, event).0.answered
            &&& action is Succeed ==> advertisement_response(state.service, action, output)
                == Some(advertisement(state.service, output))
            &&& action is Fail ==> advertisement_response(state.service, action, output) == Some(
                server_error(),
            )
        }),
{
}

/// What the client receives as an advertisement, without the preamble, is
/// what the engine wrote.
pub proof fn lemma_advertisement_round_trip(service: Service, output: Seq<u8>)
    ensures
        advertisement_response(service, BridgeActionView::Succeed { answered: false }, output)
            matches Some(response) && (response.body matches ReplyBodyView::Fixed(body)
            && body.take(preamble(service).len() as int) == preamble(service) && body.skip(
            preamble(service).len() as int,
        ) == output),
{
    lemma_frame_round_trip(service, output);
}

} // verus!
