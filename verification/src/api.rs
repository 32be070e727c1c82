//! The client of the service: one request and one result per remote
//! capability.

use vstd::prelude::*;
use vstd::string::*;
use crate::envelope::{
    decode_reply, message_result, reply_result, text_outcome_model, ApiError, EnvelopeModel,
    HttpReply,
};
use crate::history::{history_from_response, history_outcome_model, history_result, LogHistory};
use crate::live_log::{
    consume, event_models, transcript_of, LiveLogTranscript, StreamEvent,
};
use crate::plugin::{plugins_from_response, plugins_outcome_model, plugins_result, Plugin};
use crate::request::{
    json_body1, json_body2, method_name, BodyModel, Method, Request, RequestBody, RequestModel,
};
use crate::stat::{stat_from_response, stat_outcome_model, stat_result, Stat};
use crate::text::{
    join2, join3, lemma_trim_end_slashes, lemma_trim_start_slashes, owned, strip_leading_slashes,
    strip_trailing_slashes, trim_end_slashes, trim_start_slashes,
};

verus! {

/// How many characters of the token a diagnostic may show.
pub const TOKEN_PREVIEW_CHARS: usize = 8;

/// The absolute URL of a path under a base: the two joined by one slash,
/// whatever slashes the path starts with.
pub open spec fn endpoint_text(base_url: Seq<char>, path: Seq<char>) -> Seq<char> {
    base_url + seq!['/'] + trim_start_slashes(path)
}

/// What a diagnostic shows of a token: its first eight characters and an
/// ellipsis, or all of a token that has fewer than eight, with nothing added.
pub open spec fn token_preview_text(token: Seq<char>) -> Seq<char> {
    if token.len() >= TOKEN_PREVIEW_CHARS {
        token.subrange(0, TOKEN_PREVIEW_CHARS as int) + seq!['\u{2026}']
    } else {
        token
    }
}

/// The value of the `Authorization` header for a token.
pub open spec fn bearer_text(token: Seq<char>) -> Seq<char> {
    "Bearer "@ + token
}

/// A client as a mathematical value.
pub struct ClientModel {
    pub base_url: Seq<char>,
    pub token: Seq<char>,
}

/// The request that a client sends for a method, a path and a body.
pub open spec fn request_model(
    client: ClientModel,
    method: Method,
    path: Seq<char>,
    body: BodyModel,
) -> RequestModel {
    RequestModel {
        method,
        url: endpoint_text(client.base_url, path),
        authorization: Some(bearer_text(client.token)),
        body,
    }
}

/// The service's address and the token that every request carries.
pub struct ApiClient {
    base_url: String,
    token: String,
}

impl View for ApiClient {
    type V = ClientModel;

    closed spec fn view(&self) -> ClientModel {
        ClientModel { base_url: self.base_url@, token: self.token@ }
    }
}

impl ApiClient {
    #[verifier::type_invariant]
    spec fn base_url_is_trimmed(self) -> bool {
        trim_end_slashes(self.base_url@) == self.base_url@
    }

    /// A client for the service at `base_url`, whose trailing slashes are dropped.
    pub fn new(base_url: String, token: String) -> (r: ApiClient)
        ensures
            r@ == (ClientModel { base_url: trim_end_slashes(base_url@), token: token@ }),
    {
        let trimmed = strip_trailing_slashes(base_url.as_str());
        proof {
            lemma_trim_end_slashes(base_url@);
            lemma_trim_end_is_stable(base_url@);
        }
        ApiClient { base_url: trimmed, token }
    }

    /// The address of the service, which never ends in a slash.
    pub fn base_url(&self) -> (r: &str)
        ensures
            r@ == self@.base_url,
            trim_end_slashes(r@) == r@,
    {
        proof {
            use_type_invariant(self);
        }
        self.base_url.as_str()
    }

    /// The token that every request carries.
    pub fn token(&self) -> (r: &str)
        ensures
            r@ == self@.token,
    {
        self.token.as_str()
    }

    /// The absolute URL of a path of the service.
    pub fn endpoint(&self, path: &str) -> (r: String)
        ensures
            r@ == endpoint_text(self@.base_url, path@),
    {
        let tail = strip_leading_slashes(path);
        proof {
            reveal_strlit("/");
        }
        join3(self.base_url.as_str(), "/", tail.as_str())
    }

    /// The part of the token that may be shown in a diagnostic.
    pub fn token_preview(&self) -> (r: String)
        ensures
            r@ == token_preview_text(self@.token),
    {
        let token = self.token.as_str();
        if token.unicode_len() >= TOKEN_PREVIEW_CHARS {
            proof {
                reveal_strlit("\u{2026}");
            }
            join2(token.substring_char(0, TOKEN_PREVIEW_CHARS), "\u{2026}")
        } else {
            owned(token)
        }
    }

    /// The two diagnostic lines for a request, in the order in which they
    /// are shown: its method and URL, then a preview of the token.
    pub fn request_trace(&self, request: &Request) -> (r: (String, String))
        ensures
            r.0@ == method_name(request.method) + " "@ + request.url@,
            r.1@ == "Token: "@ + token_preview_text(self@.token),
    {
        let preview = self.token_preview();
        (
            join3(request.method.as_str(), " ", request.url.as_str()),
            join2("Token: ", preview.as_str()),
        )
    }

    /// A request for a path of the service, with the token attached.
    pub fn request(&self, method: Method, path: &str, body: RequestBody) -> (r: Request)
        ensures
            r@ == request_model(self@, method, path@, body@),
    {
        Request {
            method,
            url: self.endpoint(path),
            authorization: Some(join2("Bearer ", self.token.as_str())),
            body,
        }
    }
}

impl ApiClient {
    /// The request that lists the plugins.
    pub fn get_plugins_request(&self) -> (r: Request)
        ensures
            r@ == request_model(self@, Method::Get, "/api/plugin/get"@, BodyModel::Empty),
    {
        self.request(Method::Get, "/api/plugin/get", RequestBody::Empty)
    }

    /// The plugins that a reply lists; none where the service sent no payload.
    pub fn get_plugins(&self, reply: &HttpReply) -> (r: Result<Vec<Plugin>, ApiError>)
        ensures
            plugins_outcome_model(r) == reply_result(
                *reply,
                |envelope: EnvelopeModel| plugins_result(envelope),
            ),
    {
        match decode_reply(reply) {
            Ok(response) => plugins_from_response(response),
            Err(error) => Err(error),
        }
    }

    /// The request that installs a plugin from a local archive, sent as the
    /// form part `file`.
    pub fn install_local_plugin_request(&self, local_plugin: &str) -> (r: Request)
        ensures
            r@ == request_model(
                self@,
                Method::Post,
                "/api/plugin/install-upload"@,
                (BodyModel::FileUpload { field: "file"@, path: local_plugin@ }),
            ),
    {
        let body = RequestBody::FileUpload { field: owned("file"), path: owned(local_plugin) };
        self.request(Method::Post, "/api/plugin/install-upload", body)
    }

    /// The service's message on an upload.
    pub fn install_local_plugin(&self, reply: &HttpReply) -> (r: Result<String, ApiError>)
        ensures
            text_outcome_model(r) == reply_result(
                *reply,
                |envelope: EnvelopeModel| message_result(envelope),
            ),
    {
        message_from_reply(reply)
    }

    /// The request that installs a plugin from a repository. The member
    /// `proxy` is always sent, and always empty.
    pub fn install_remote_plugin_request(&self, remote_plugin: &str) -> (r: Request)
        ensures
            r@ == request_model(
                self@,
                Method::Post,
                "/api/plugin/install"@,
                BodyModel::Json(seq![("proxy"@, ""@), ("url"@, remote_plugin@)]),
            ),
    {
        let body = json_body2("proxy", "", "url", remote_plugin);
        self.request(Method::Post, "/api/plugin/install", body)
    }

    /// The service's message on an installation from a repository.
    pub fn install_remote_plugin(&self, reply: &HttpReply) -> (r: Result<String, ApiError>)
        ensures
            text_outcome_model(r) == reply_result(
                *reply,
                |envelope: EnvelopeModel| message_result(envelope),
            ),
    {
        message_from_reply(reply)
    }

    /// The request that applies an action to a plugin. The action's name
    /// becomes the last part of the path as it stands.
    pub fn plugin_action_request(&self, plugin_name: &str, action_name: &str) -> (r: Request)
        ensures
            r@ == request_model(
                self@,
                Method::Post,
                "/api/plugin/"@ + action_name@,
                BodyModel::Json(seq![("name"@, plugin_name@)]),
            ),
    {
        let path = join2("/api/plugin/", action_name);
        let body = json_body1("name", plugin_name);
        self.request(Method::Post, path.as_str(), body)
    }

    /// The service's message on an action.
    pub fn plugin_common_actions_request(&self, reply: &HttpReply) -> (r: Result<
        String,
        ApiError,
    >)
        ensures
            text_outcome_model(r) == reply_result(
                *reply,
                |envelope: EnvelopeModel| message_result(envelope),
            ),
    {
        message_from_reply(reply)
    }

    /// The request that fetches the statistics.
    pub fn get_stat_request(&self) -> (r: Request)
        ensures
            r@ == request_model(self@, Method::Get, "/api/stat/get"@, BodyModel::Empty),
    {
        self.request(Method::Get, "/api/stat/get", RequestBody::Empty)
    }

    /// The statistics that a reply holds.
    pub fn get_stat(&self, reply: &HttpReply) -> (r: Result<Stat, ApiError>)
        ensures
            stat_outcome_model(r) == reply_result(
                *reply,
                |envelope: EnvelopeModel| stat_result(envelope),
            ),
    {
        match decode_reply(reply) {
            Ok(response) => stat_from_response(response),
            Err(error) => Err(error),
        }
    }

    /// The request that fetches the log history.
    pub fn get_log_history_request(&self) -> (r: Request)
        ensures
            r@ == request_model(self@, Method::Get, "/api/log-history"@, BodyModel::Empty),
    {
        self.request(Method::Get, "/api/log-history", RequestBody::Empty)
    }

    /// The log history that a reply holds.
    pub fn get_log_history(&self, reply: &HttpReply) -> (r: Result<LogHistory, ApiError>)
        ensures
            history_outcome_model(r) == reply_result(
                *reply,
                |envelope: EnvelopeModel| history_result(envelope),
            ),
    {
        match decode_reply(reply) {
            Ok(response) => history_from_response(response),
            Err(error) => Err(error),
        }
    }

    /// The request that opens the live-log stream.
    pub fn get_live_log_request(&self) -> (r: Request)
        ensures
            r@ == request_model(self@, Method::Get, "api/live-log"@, BodyModel::Empty),
    {
        self.request(Method::Get, "api/live-log", RequestBody::Empty)
    }

    /// What following the live log does over the events of a connection:
    /// what is written, announced and reported, and how the operation ends.
    pub fn get_live_log(&self, flush: bool, events: &Vec<StreamEvent>) -> (r: LiveLogTranscript)
        ensures
            r@ == transcript_of(flush, event_models(events@)),
    {
        consume(flush, events)
    }
}

/// The service's message in a reply, or the failure that the reply stands for.
pub fn message_from_reply(reply: &HttpReply) -> (r: Result<String, ApiError>)
    ensures
        text_outcome_model(r) == reply_result(
            *reply,
            |envelope: EnvelopeModel| message_result(envelope),
        ),
{
    match decode_reply(reply) {
        Ok(response) => response.into_message(),
        Err(error) => Err(error),
    }
}

/// A base and a path are joined by exactly one slash, whatever slashes the
/// base ends with and the path starts with: the URL is the base without its
/// trailing slashes, one slash, and the path without its leading slashes.
pub proof fn lemma_endpoint_one_slash(base_url: Seq<char>, path: Seq<char>)
    ensures
        ({
            let base = trim_end_slashes(base_url);
            let tail = trim_start_slashes(path);
            &&& endpoint_text(base, path) == base + seq!['/'] + tail
            &&& endpoint_text(base, path).len() == base.len() + 1 + tail.len()
            &&& endpoint_text(base, path)[base.len() as int] == '/'
            &&& base.len() > 0 ==> endpoint_text(base, path)[base.len() - 1] != '/'
            &&& tail.len() > 0 ==> endpoint_text(base, path)[base.len() as int + 1] != '/'
            &&& base.is_prefix_of(base_url)
            &&& tail.is_suffix_of(path)
        }),
{
    lemma_trim_end_slashes(base_url);
    lemma_trim_start_slashes(path);
    let base = trim_end_slashes(base_url);
    let tail = trim_start_slashes(path);
    assert(tail.is_suffix_of(path));
}

/// A token of eight characters or more is shown as its first eight and an
/// ellipsis; a shorter one in full, with nothing added.
pub proof fn lemma_token_preview(token: Seq<char>)
    ensures
        token.len() >= 8 ==> token_preview_text(token) == token.subrange(0, 8) + seq!['\u{2026}'],
        token.len() < 8 ==> token_preview_text(token) == token,
        token_preview_text(token).len() <= 9,
{
}

/// Trimming a trimmed text changes nothing.
pub proof fn lemma_trim_end_is_stable(s: Seq<char>)
    ensures
        trim_end_slashes(trim_end_slashes(s)) == trim_end_slashes(s),
    decreases s.len(),
{
    if s.len() > 0 && s.last() == '/' {
        lemma_trim_end_is_stable(s.drop_last());
    }
}

} // verus!
