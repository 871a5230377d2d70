//! Normalization of inbound requests and the decisions of the dispatcher.

use crate::error::APIError;
use crate::json::{
    boolean_of, decoded, encoded, from_slice, get, lookup, map_remove, text_of, text_value,
    to_vec, tree_of, JsonTree,
};
use crate::metrics::database::{billed_tokens, extract_tokens};
use crate::models::{CatalogView, ModelCatalog};
use crate::text::str_eq;
use serde_json::Value;
use vstd::prelude::*;
use vstd::slice::slice_to_vec;
use vstd::string::StringSliceAdditionalSpecFns;

verus! {

/// Whether `fields` names a service tier that the upstream knows.
pub open spec fn tier_is_valid(fields: Map<Seq<char>, JsonTree>) -> bool {
    &&& fields.contains_key("service_tier"@)
    &&& (fields["service_tier"@] == JsonTree::Text("flex"@) || fields["service_tier"@]
        == JsonTree::Text("on_demand"@))
}

/// Whether `fields` names a model of the catalog.
pub open spec fn model_is_allowed(fields: Map<Seq<char>, JsonTree>, catalog: CatalogView) -> bool {
    &&& fields.contains_key("model"@)
    &&& match text_of(fields["model"@]) {
        Some(model) => catalog.allowed.contains(model),
        None => false,
    }
}

/// The tier rule: a `service_tier` other than `flex` and `on_demand` is
/// taken out.
pub open spec fn with_valid_tier(fields: Map<Seq<char>, JsonTree>) -> Map<Seq<char>, JsonTree> {
    if tier_is_valid(fields) {
        fields
    } else {
        fields.remove("service_tier"@)
    }
}

/// The model rule: unless `model` names a model of the catalog, it is set
/// to the default model.
pub open spec fn with_allowed_model(
    fields: Map<Seq<char>, JsonTree>,
    catalog: CatalogView,
) -> Map<Seq<char>, JsonTree> {
    if model_is_allowed(fields, catalog) {
        fields
    } else {
        fields.insert("model"@, JsonTree::Text(catalog.default_model))
    }
}

/// A request after normalization: an object with both rules applied, any
/// other document as it is.
pub open spec fn normalized(request: JsonTree, catalog: CatalogView) -> JsonTree {
    match request {
        JsonTree::Object(fields) => JsonTree::Object(
            with_allowed_model(with_valid_tier(fields), catalog),
        ),
        other => other,
    }
}

/// The model that a request names: the text under `model`, where there is
/// one.
pub open spec fn named_model(request: JsonTree) -> Option<Seq<char>> {
    match lookup(request, "model"@) {
        Some(member) => text_of(member),
        None => None,
    }
}

/// The two members that normalization touches have different keys.
pub proof fn lemma_rule_keys_differ()
    ensures
        "model"@ != "service_tier"@,
{
    reveal_strlit("model");
    reveal_strlit("service_tier");
    assert("model"@.len() == 5);
    assert("service_tier"@.len() == 12);
}

/// A request object that names no model, or one that the catalog does not
/// list, comes out naming the default model.
pub proof fn lemma_unlisted_model_becomes_default(request: JsonTree, catalog: CatalogView)
    requires
        request is Object,
        match named_model(request) {
            Some(model) => !catalog.allowed.contains(model),
            None => true,
        },
    ensures
        lookup(normalized(request, catalog), "model"@) == Some(
            JsonTree::Text(catalog.default_model),
        ),
{
    lemma_rule_keys_differ();
}

/// A request that names a model of the catalog keeps it.
pub proof fn lemma_listed_model_is_kept(request: JsonTree, catalog: CatalogView)
    requires
        named_model(request) matches Some(model) && catalog.allowed.contains(model),
    ensures
        lookup(normalized(request, catalog), "model"@) == lookup(request, "model"@),
{
    lemma_rule_keys_differ();
}

/// Normalizing a normalized request changes nothing.
pub proof fn lemma_normalize_is_idempotent(request: JsonTree, catalog: CatalogView)
    ensures
        normalized(normalized(request, catalog), catalog) == normalized(request, catalog),
{
    lemma_rule_keys_differ();
    if let JsonTree::Object(fields) = request {
        let once = with_allowed_model(with_valid_tier(fields), catalog);
        assert(tier_is_valid(once) == tier_is_valid(fields));
        assert(with_valid_tier(once) =~= once);
        assert(with_allowed_model(once, catalog) =~= once);
    }
}

/// After normalization `service_tier` is `flex`, `on_demand` or absent: one
/// of the two is kept, and anything else is taken out.
pub proof fn lemma_tier_is_valid_or_absent(request: JsonTree, catalog: CatalogView)
    ensures
        match lookup(normalized(request, catalog), "service_tier"@) {
            Some(tier) => tier == JsonTree::Text("flex"@) || tier == JsonTree::Text("on_demand"@),
            None => true,
        },
        lookup(normalized(request, catalog), "service_tier"@) == match lookup(
            request,
            "service_tier"@,
        ) {
            Some(tier) => if tier == JsonTree::Text("flex"@) || tier == JsonTree::Text(
                "on_demand"@,
            ) {
                Some(tier)
            } else {
                None
            },
            None => None,
        },
{
    lemma_rule_keys_differ();
}

/// Normalization leaves every member but `model` and `service_tier` as it
/// is, and adds none.
pub proof fn lemma_other_members_pass_through(
    request: JsonTree,
    catalog: CatalogView,
    key: Seq<char>,
)
    requires
        key != "model"@,
        key != "service_tier"@,
    ensures
        lookup(normalized(request, catalog), key) == lookup(request, key),
{
}

/// Coerces `service_tier` and `model` of a request into what the upstream
/// accepts, and leaves every other member alone.
pub fn normalize(request: &mut Value, catalog: &ModelCatalog)
    ensures
        tree_of(*final(request)) == normalized(tree_of(*old(request)), catalog@),
{
    let keep_tier = match get(request, "service_tier") {
        Some(member) => match member.as_str() {
            Some(tier) => str_eq(tier, "flex") || str_eq(tier, "on_demand"),
            None => false,
        },
        None => false,
    };
    let keep_model = match get(request, "model") {
        Some(member) => match member.as_str() {
            Some(model) => catalog.is_allowed_model(model),
            None => false,
        },
        None => false,
    };
    proof {
        lemma_rule_keys_differ();
    }
    match request.as_object_mut() {
        Some(object) => {
            if !keep_tier {
                map_remove(object, "service_tier");
            }
            if !keep_model {
                object.insert("model".to_owned(), text_value(catalog.default_model.clone()));
            }
        },
        None => {},
    }
}

/// Reads a request body, normalizes the request, and writes it back.
pub fn validate_model(body: &[u8], catalog: &ModelCatalog) -> (result: Result<Vec<u8>, APIError>)
    ensures
        match decoded(body@) {
            None => result == Err::<Vec<u8>, APIError>(APIError::InvalidJson),
            Some(request) => match encoded(normalized(request, catalog@)) {
                Some(bytes) => result matches Ok(out) && out@ == bytes,
                None => result == Err::<Vec<u8>, APIError>(APIError::UnserializableRequest),
            },
        },
{
    let mut request = match from_slice(body) {
        Ok(request) => request,
        Err(_) => {
            return Err(APIError::InvalidJson);
        },
    };
    normalize(&mut request, catalog);
    match to_vec(&request) {
        Ok(bytes) => Ok(bytes),
        Err(_) => Err(APIError::UnserializableRequest),
    }
}

/// Where the handling of one request stands.
#[derive(Debug)]
pub enum Dispatch {
    /// The normalized request is at hand; nothing was sent.
    Received,
    /// The request is on its way; the upstream's status and headers are
    /// awaited.
    Sent,
    /// The upstream reported success; its whole body is being read.
    Buffering { content_type: Vec<u8> },
    /// The body was read and handed to accounting; the reply waits for
    /// accounting to come back.
    Accounting { content_type: Vec<u8>, body: Vec<u8> },
    /// The client has its answer, or the stream that carries it.
    Answered,
}

/// What happened since the last step.
#[derive(Debug)]
pub enum Upstream {
    /// The request came in.
    Arrived,
    /// The request could not be sent.
    SendFailed,
    /// The upstream answered with this status and this `Content-Type`.
    Head { status: u16, content_type: Option<Vec<u8>> },
    /// The body could not be read.
    BodyFailed,
    /// The body was read.
    Body(Vec<u8>),
    /// Accounting came back. Whether it wrote anything is not told.
    Accounted,
}

/// What the caller is to do next.
#[derive(Debug)]
pub enum Action {
    /// Send the request to the upstream, as a POST with a JSON body, and
    /// report `Head` or `SendFailed`.
    Send,
    /// Read the whole body, and report `Body` or `BodyFailed`.
    ReadBody,
    /// Hand the response and its token count to accounting, wait for it, and
    /// report `Accounted`.
    Record { response: Value, tokens: i32 },
    /// Answer with this status, `Content-Type` and body.
    Reply { status: u16, content_type: Vec<u8>, body: Vec<u8> },
    /// Answer with status 200 and this `Content-Type`, and pass each chunk
    /// of the upstream's body on as it comes, scanning it for usage on the
    /// side.
    Stream { content_type: Vec<u8> },
    /// Answer with the error's status and text.
    Fail(APIError),
    /// The event does not belong to the state: do nothing.
    Ignore,
}

/// A state of the dispatcher as a value.
pub enum DispatchView {
    Received,
    Sent,
    Buffering { content_type: Seq<u8> },
    Accounting { content_type: Seq<u8>, body: Seq<u8> },
    Answered,
}

/// An event as a value.
pub enum UpstreamView {
    Arrived,
    SendFailed,
    Head { status: u16, content_type: Option<Seq<u8>> },
    BodyFailed,
    Body(Seq<u8>),
    Accounted,
}

/// An action as a value.
pub enum ActionView {
    Send,
    ReadBody,
    Record { response: JsonTree, tokens: int },
    Reply { status: u16, content_type: Seq<u8>, body: Seq<u8> },
    Stream { content_type: Seq<u8> },
    Fail(APIError),
    Ignore,
}

impl View for Dispatch {
    type V = DispatchView;

    open spec fn view(&self) -> DispatchView {
        match *self {
            Dispatch::Received => DispatchView::Received,
            Dispatch::Sent => DispatchView::Sent,
            Dispatch::Buffering { content_type } => DispatchView::Buffering {
                content_type: content_type@,
            },
            Dispatch::Accounting { content_type, body } => DispatchView::Accounting {
                content_type: content_type@,
                body: body@,
            },
            Dispatch::Answered => DispatchView::Answered,
        }
    }
}

impl View for Upstream {
    type V = UpstreamView;

    open spec fn view(&self) -> UpstreamView {
        match *self {
            Upstream::Arrived => UpstreamView::Arrived,
            Upstream::SendFailed => UpstreamView::SendFailed,
            Upstream::Head { status, content_type } => UpstreamView::Head {
                status,
                content_type: match content_type {
                    Some(value) => Some(value@),
                    None => None,
                },
            },
            Upstream::BodyFailed => UpstreamView::BodyFailed,
            Upstream::Body(body) => UpstreamView::Body(body@),
            Upstream::Accounted => UpstreamView::Accounted,
        }
    }
}

impl View for Action {
    type V = ActionView;

    open spec fn view(&self) -> ActionView {
        match *self {
            Action::Send => ActionView::Send,
            Action::ReadBody => ActionView::ReadBody,
            Action::Record { response, tokens } => ActionView::Record {
                response: tree_of(response),
                tokens: tokens as int,
            },
            Action::Reply { status, content_type, body } => ActionView::Reply {
                status,
                content_type: content_type@,
                body: body@,
            },
            Action::Stream { content_type } => ActionView::Stream { content_type: content_type@ },
            Action::Fail(error) => ActionView::Fail(error),
            Action::Ignore => ActionView::Ignore,
        }
    }
}

/// Whether a status reports success: 200 to 299.
pub open spec fn is_success(status: u16) -> bool {
    200 <= status <= 299
}

/// Whether a request asks for a streamed response: its member `stream` is
/// the boolean `true`.
pub open spec fn wants_stream(request: JsonTree) -> bool {
    match lookup(request, "stream"@) {
        Some(member) => boolean_of(member) == Some(true),
        None => false,
    }
}

/// The `Content-Type` of the relayed response: the upstream's, or
/// `application/json` where it sent none.
pub open spec fn relayed_type(content_type: Option<Seq<u8>>) -> Seq<u8> {
    match content_type {
        Some(value) => value,
        None => "application/json".spec_bytes(),
    }
}

/// The next state and the action that follow an event, for a request that
/// does or does not ask for a stream.
pub open spec fn dispatch_step(state: DispatchView, event: UpstreamView, streaming: bool) -> (
    DispatchView,
    ActionView,
) {
    match (state, event) {
        (DispatchView::Received, UpstreamView::Arrived) => (DispatchView::Sent, ActionView::Send),
        (DispatchView::Sent, UpstreamView::SendFailed) => (
            DispatchView::Answered,
            ActionView::Fail(APIError::UpstreamUnreachable),
        ),
        (DispatchView::Sent, UpstreamView::Head { status, content_type }) => if !is_success(
            status,
        ) {
            (DispatchView::Answered, ActionView::Fail(APIError::UpstreamStatus(status)))
        } else if streaming {
            (
                DispatchView::Answered,
                ActionView::Stream { content_type: relayed_type(content_type) },
            )
        } else {
            (
                DispatchView::Buffering { content_type: relayed_type(content_type) },
                ActionView::ReadBody,
            )
        },
        (DispatchView::Buffering { .. }, UpstreamView::BodyFailed) => (
            DispatchView::Answered,
            ActionView::Fail(APIError::UnreadableResponse),
        ),
        (DispatchView::Buffering { content_type }, UpstreamView::Body(body)) => match decoded(
            body,
        ) {
            Some(response) => (
                DispatchView::Accounting { content_type, body },
                ActionView::Record { response, tokens: billed_tokens(response, false) },
            ),
            None => (DispatchView::Answered, ActionView::Fail(APIError::InvalidResponse)),
        },
        (DispatchView::Accounting { content_type, body }, UpstreamView::Accounted) => (
            DispatchView::Answered,
            ActionView::Reply { status: 200, content_type, body },
        ),
        _ => (state, ActionView::Ignore),
    }
}

/// Whether a request asks for a streamed response.
pub fn is_streaming(request: &Value) -> (streaming: bool)
    ensures
        streaming == wants_stream(tree_of(*request)),
{
    match get(request, "stream") {
        Some(member) => match member.as_bool() {
            Some(flag) => flag,
            None => false,
        },
        None => false,
    }
}

/// One step of relaying a normalized request to the upstream. The caller
/// does what the returned action says and comes back with what happened.
pub fn completions(state: Dispatch, event: Upstream, request: &Value) -> (step: (Dispatch, Action))
    ensures
        (step.0@, step.1@) == dispatch_step(state@, event@, wants_stream(tree_of(*request))),
{
    match (state, event) {
        (Dispatch::Received, Upstream::Arrived) => (Dispatch::Sent, Action::Send),
        (Dispatch::Sent, Upstream::SendFailed) => (
            Dispatch::Answered,
            Action::Fail(APIError::UpstreamUnreachable),
        ),
        (Dispatch::Sent, Upstream::Head { status, content_type }) => {
            if !(200 <= status && status <= 299) {
                (Dispatch::Answered, Action::Fail(APIError::UpstreamStatus(status)))
            } else {
                let content_type = match content_type {
                    Some(value) => value,
                    None => slice_to_vec("application/json".as_bytes()),
                };
                if is_streaming(request) {
                    (Dispatch::Answered, Action::Stream { content_type })
                } else {
                    (Dispatch::Buffering { content_type }, Action::ReadBody)
                }
            }
        },
        (Dispatch::Buffering { content_type }, Upstream::BodyFailed) => (
            Dispatch::Answered,
            Action::Fail(APIError::UnreadableResponse),
        ),
        (Dispatch::Buffering { content_type }, Upstream::Body(body)) => {
            match from_slice(body.as_slice()) {
                Ok(response) => {
                    let tokens = extract_tokens(&response, false);
                    (Dispatch::Accounting { content_type, body }, Action::Record { response, tokens })
                },
                Err(_) => (Dispatch::Answered, Action::Fail(APIError::InvalidResponse)),
            }
        },
        (Dispatch::Accounting { content_type, body }, Upstream::Accounted) => (
            Dispatch::Answered,
            Action::Reply { status: 200, content_type, body },
        ),
        (state, _) => (state, Action::Ignore),
    }
}

/// An upstream status that is no success goes to the client as it is, with
/// the fixed text, and nothing is handed to accounting.
pub proof fn lemma_upstream_status_is_relayed(
    status: u16,
    content_type: Option<Seq<u8>>,
    streaming: bool,
)
    requires
        !is_success(status),
    ensures
        dispatch_step(
            DispatchView::Sent,
            UpstreamView::Head { status, content_type },
            streaming,
        ) == (DispatchView::Answered, ActionView::Fail(APIError::UpstreamStatus(status))),
        APIError::UpstreamStatus(status).code_spec() == status,
        APIError::UpstreamStatus(status).body_spec() == "Upstream service error"@,
{
}

/// Once the body of a response was read as a document, the client gets
/// status 200 and that body, byte for byte, under the upstream's content
/// type, whatever became of the accounting.
pub proof fn lemma_reply_does_not_wait_on_the_store(
    content_type: Seq<u8>,
    body: Seq<u8>,
    streaming: bool,
)
    requires
        decoded(body) is Some,
    ensures
        dispatch_step(
            dispatch_step(
                DispatchView::Buffering { content_type },
                UpstreamView::Body(body),
                streaming,
            ).0,
            UpstreamView::Accounted,
            streaming,
        ).1 == (ActionView::Reply { status: 200, content_type, body }),
{
}

/// Accounting is asked for at one step only: when the body of a response
/// that is not streamed was read as a document.
pub proof fn lemma_record_follows_a_body(
    state: DispatchView,
    event: UpstreamView,
    streaming: bool,
)
    requires
        dispatch_step(state, event, streaming).1 is Record,
    ensures
        state is Buffering,
        event matches UpstreamView::Body(body) && decoded(body) is Some,
{
}

} // verus!
