//! The uniform `{status, message, data}` envelope of the service's replies:
//! how a reply is classified and what is taken out of it.

use vstd::prelude::*;
use vstd::string::*;
use crate::json::{
    get_present, get_string, json_error_text, json_model, json_parse, json_read, json_text,
    member, parse_value, present_member, string_member, value_as_str, value_clone, value_is_null,
    value_member, value_text, JsonModel,
};
use crate::text::{decimal, decimal_text, first_chars, join2, owned, take_chars};

verus! {

/// The longest piece of a reply body that a transport failure carries.
pub const BODY_SNIPPET_CHARS: usize = 256;

/// Status code and body text of an HTTP reply, as the transport hands them over.
#[derive(Debug)]
pub struct HttpReply {
    pub status: u16,
    pub body: String,
}

/// Why a request did not yield a result.
#[derive(Debug)]
pub enum ApiError {
    /// The HTTP status was outside the success range.
    Transport { status: u16, body_snippet: String },
    /// The body was no envelope; the text is a diagnostic for the user.
    Decode(String),
    /// The service answered with a status other than `ok`.
    Api(String),
    /// The service answered `ok` without the payload that was asked for.
    MissingData,
}

/// An `ApiError` as a mathematical value.
pub enum ApiErrorView {
    Transport { status: u16, body_snippet: Seq<char> },
    Decode(Seq<char>),
    Api(Seq<char>),
    MissingData,
}

impl View for ApiError {
    type V = ApiErrorView;

    open spec fn view(&self) -> ApiErrorView {
        match self {
            ApiError::Transport { status, body_snippet } => ApiErrorView::Transport {
                status: *status,
                body_snippet: body_snippet@,
            },
            ApiError::Decode(diagnostic) => ApiErrorView::Decode(diagnostic@),
            ApiError::Api(message) => ApiErrorView::Api(message@),
            ApiError::MissingData => ApiErrorView::MissingData,
        }
    }
}

/// The words in which a failure is told to the user.
pub open spec fn error_message(error: ApiError) -> Seq<char> {
    match error {
        ApiError::Transport { status, body_snippet } => "API request failed: HTTP "@
            + decimal_text(status as nat) + ". Body: "@ + body_snippet@,
        ApiError::Decode(diagnostic) => diagnostic@,
        ApiError::Api(message) => "API error: "@ + message@,
        ApiError::MissingData => "No data received"@,
    }
}

impl ApiError {
    /// The words in which the failure is told to the user.
    pub fn message(&self) -> (r: String)
        ensures
            r@ == error_message(*self),
    {
        match self {
            ApiError::Transport { status, body_snippet } => {
                let code = decimal(*status as u64);
                let mut out = join2("API request failed: HTTP ", code.as_str());
                out.append(". Body: ");
                out.append(body_snippet.as_str());
                out
            },
            ApiError::Decode(diagnostic) => owned(diagnostic.as_str()),
            ApiError::Api(message) => join2("API error: ", message.as_str()),
            ApiError::MissingData => owned("No data received"),
        }
    }
}

/// A decoded envelope. `status` is the service's verdict, `message` its
/// normalized message and `data` the payload, absent where the service sent
/// none or sent null.
#[derive(Debug)]
pub struct ApiResponse<T> {
    pub status: String,
    pub message: String,
    pub data: Option<T>,
}

/// An envelope as a mathematical value, its payload still plain JSON.
pub struct EnvelopeModel {
    pub status: Seq<char>,
    pub message: Seq<char>,
    pub data: Option<JsonModel>,
}

/// The HTTP status codes that count as success.
pub open spec fn is_success_status(status: u16) -> bool {
    200 <= status < 300
}

/// The one verdict that means success: `ok`, in any mix of upper and lower case.
pub open spec fn is_ok_status(status: Seq<char>) -> bool {
    &&& status.len() == 2
    &&& (status[0] == 'o' || status[0] == 'O')
    &&& (status[1] == 'k' || status[1] == 'K')
}

/// The message of an envelope as plain text: nothing for an absent or null
/// member, a string as it stands, anything else as its JSON text.
pub open spec fn normalized_message(field: Option<JsonModel>) -> Seq<char> {
    match field {
        None => Seq::empty(),
        Some(JsonModel::Null) => Seq::empty(),
        Some(JsonModel::Str(s)) => s,
        Some(other) => json_text(other),
    }
}

/// The envelope that a JSON value holds: an object whose `status` is a string.
pub open spec fn envelope_of(j: JsonModel) -> Option<EnvelopeModel> {
    match string_member(j, "status"@) {
        Some(status) => Some(
            EnvelopeModel {
                status,
                message: normalized_message(member(j, "message"@)),
                data: present_member(j, "data"@),
            },
        ),
        None => None,
    }
}

/// The diagnostic for a body that is JSON and no envelope.
pub open spec fn no_envelope_text() -> Seq<char> {
    "the reply has no text member `status`"@
}

/// What a parsed body decodes to.
pub open spec fn decoded_json(j: JsonModel) -> Result<EnvelopeModel, ApiErrorView> {
    match envelope_of(j) {
        Some(envelope) => Ok(envelope),
        None => Err(ApiErrorView::Decode(no_envelope_text())),
    }
}

/// What a reply decodes to, given what reading its body as JSON yields: a
/// transport failure for a status outside the success range, whatever the
/// body holds; a decode failure with the parser's diagnostic for a body that
/// is no JSON, and one with a diagnostic of its own for JSON that is no
/// envelope; the envelope otherwise.
pub open spec fn decoded_reply(
    status: u16,
    body: Seq<char>,
    read: Result<JsonModel, Seq<char>>,
) -> Result<EnvelopeModel, ApiErrorView> {
    if !is_success_status(status) {
        Err(
            ApiErrorView::Transport {
                status,
                body_snippet: take_chars(body, BODY_SNIPPET_CHARS as nat),
            },
        )
    } else {
        match read {
            Err(diagnostic) => Err(ApiErrorView::Decode(diagnostic)),
            Ok(j) => decoded_json(j),
        }
    }
}

/// What an operation yields that needs a payload of a given shape. A payload
/// of the wrong shape is a decode failure with the given complaint, even
/// where the service reported a failure of its own; an absent payload is a
/// failure of its own kind.
pub open spec fn required_payload<T>(
    envelope: EnvelopeModel,
    shape: spec_fn(JsonModel) -> Option<T>,
    complaint: Seq<char>,
) -> Result<T, ApiErrorView> {
    match envelope.data {
        Some(payload) => match shape(payload) {
            None => Err(ApiErrorView::Decode(complaint)),
            Some(value) => if is_ok_status(envelope.status) {
                Ok(value)
            } else {
                Err(ApiErrorView::Api(envelope.message))
            },
        },
        None => if is_ok_status(envelope.status) {
            Err(ApiErrorView::MissingData)
        } else {
            Err(ApiErrorView::Api(envelope.message))
        },
    }
}

/// What a reply decodes to.
pub open spec fn reply_envelope(reply: HttpReply) -> Result<EnvelopeModel, ApiErrorView> {
    decoded_reply(reply.status, reply.body@, json_read(reply.body@))
}

/// The outcome of an operation: the failure to decode the reply, or what the
/// operation makes of the envelope.
pub open spec fn reply_result<T>(
    reply: HttpReply,
    operation: spec_fn(EnvelopeModel) -> Result<T, ApiErrorView>,
) -> Result<T, ApiErrorView> {
    match reply_envelope(reply) {
        Ok(envelope) => operation(envelope),
        Err(error) => Err(error),
    }
}

/// What an operation yields that answers with the service's message.
pub open spec fn message_result(envelope: EnvelopeModel) -> Result<Seq<char>, ApiErrorView> {
    if is_ok_status(envelope.status) {
        Ok(envelope.message)
    } else {
        Err(ApiErrorView::Api(envelope.message))
    }
}

/// The model of an outcome that is a text.
pub open spec fn text_outcome_model(outcome: Result<String, ApiError>) -> Result<
    Seq<char>,
    ApiErrorView,
> {
    match outcome {
        Ok(text) => Ok(text@),
        Err(error) => Err(error@),
    }
}

/// The model of a decoded envelope whose payload is still raw JSON.
pub open spec fn raw_envelope_model(response: ApiResponse<serde_json::Value>) -> EnvelopeModel {
    EnvelopeModel {
        status: response.status@,
        message: response.message@,
        data: match response.data {
            Some(value) => Some(json_model(value)),
            None => None,
        },
    }
}

/// The model of the outcome of decoding a reply.
pub open spec fn raw_outcome_model(outcome: Result<ApiResponse<serde_json::Value>, ApiError>) -> Result<
    EnvelopeModel,
    ApiErrorView,
> {
    match outcome {
        Ok(response) => Ok(raw_envelope_model(response)),
        Err(error) => Err(error@),
    }
}

impl<T> ApiResponse<T> {
    /// Whether the service reported success.
    pub fn is_ok(&self) -> (r: bool)
        ensures
            r == is_ok_status(self.status@),
    {
        let status = self.status.as_str();
        if status.unicode_len() != 2 {
            return false;
        }
        let first = status.get_char(0);
        let second = status.get_char(1);
        (first == 'o' || first == 'O') && (second == 'k' || second == 'K')
    }

    /// The two diagnostic lines for a decoded envelope: its verdict, then
    /// its message.
    pub fn trace(&self) -> (r: (String, String))
        ensures
            r.0@ == "ApiResponse.status : "@ + self.status@,
            r.1@ == "ApiResponse.message: "@ + self.message@,
    {
        (
            join2("ApiResponse.status : ", self.status.as_str()),
            join2("ApiResponse.message: ", self.message.as_str()),
        )
    }

    /// The message of a successful reply; the failure that the service
    /// reported otherwise.
    pub fn into_message(self) -> (r: Result<String, ApiError>)
        ensures
            is_ok_status(self.status@) ==> r == Ok::<String, ApiError>(self.message),
            !is_ok_status(self.status@) ==> r == Err::<String, ApiError>(
                ApiError::Api(self.message),
            ),
    {
        if self.is_ok() {
            Ok(self.message)
        } else {
            Err(ApiError::Api(self.message))
        }
    }

    /// The payload of a successful reply, which must be there; the failure
    /// that the service reported otherwise.
    pub fn into_data(self) -> (r: Result<T, ApiError>)
        ensures
            r == (if !is_ok_status(self.status@) {
                Err(ApiError::Api(self.message))
            } else {
                match self.data {
                    Some(data) => Ok(data),
                    None => Err(ApiError::MissingData),
                }
            }),
    {
        if self.is_ok() {
            match self.data {
                Some(data) => Ok(data),
                None => Err(ApiError::MissingData),
            }
        } else {
            Err(ApiError::Api(self.message))
        }
    }
}

/// Whether an HTTP status code is in the success range.
pub fn is_success(status: u16) -> (r: bool)
    ensures
        r == is_success_status(status),
{
    200 <= status && status < 300
}

/// Turns the `message` member of an envelope into plain text.
pub fn value_to_string(field: Option<&serde_json::Value>) -> (r: String)
    ensures
        r@ == normalized_message(
            match field {
                Some(value) => Some(json_model(*value)),
                None => None,
            },
        ),
{
    match field {
        None => String::new(),
        Some(value) => {
            if value_is_null(value) {
                String::new()
            } else {
                match value_as_str(value) {
                    Some(s) => owned(s),
                    None => value_text(value),
                }
            }
        },
    }
}

/// Takes the envelope out of a parsed body.
pub fn envelope_from_json(value: &serde_json::Value) -> (r: Result<
    ApiResponse<serde_json::Value>,
    ApiError,
>)
    ensures
        raw_outcome_model(r) == decoded_json(json_model(*value)),
{
    match get_string(value, "status") {
        None => Err(ApiError::Decode(owned("the reply has no text member `status`"))),
        Some(status) => {
            let message = value_to_string(value_member(value, "message"));
            let data = match get_present(value, "data") {
                Some(payload) => Some(value_clone(payload)),
                None => None,
            };
            Ok(ApiResponse { status, message, data })
        },
    }
}

/// Classifies a reply: a transport failure for a status outside the success
/// range, whatever the body holds; a decode failure for a body that is no
/// envelope; the envelope otherwise.
pub fn decode_reply(reply: &HttpReply) -> (r: Result<ApiResponse<serde_json::Value>, ApiError>)
    ensures
        raw_outcome_model(r) == reply_envelope(*reply),
{
    if !is_success(reply.status) {
        return Err(
            ApiError::Transport {
                status: reply.status,
                body_snippet: first_chars(reply.body.as_str(), BODY_SNIPPET_CHARS),
            },
        );
    }
    match parse_value(reply.body.as_str()) {
        Err(diagnostic) => Err(ApiError::Decode(diagnostic)),
        Ok(value) => envelope_from_json(&value),
    }
}

/// The model of an outcome that is a raw payload.
pub open spec fn payload_outcome_model(outcome: Result<serde_json::Value, ApiError>) -> Result<
    JsonModel,
    ApiErrorView,
> {
    match outcome {
        Ok(value) => Ok(json_model(value)),
        Err(error) => Err(error@),
    }
}

/// What an operation yields that needs a payload, of whatever shape.
pub open spec fn payload_result(envelope: EnvelopeModel) -> Result<JsonModel, ApiErrorView> {
    required_payload(envelope, |j: JsonModel| Some(j), Seq::empty())
}

/// The payload of a reply as it came, which must be there.
pub fn payload_from_reply(reply: &HttpReply) -> (r: Result<serde_json::Value, ApiError>)
    ensures
        payload_outcome_model(r) == reply_result(
            *reply,
            |envelope: EnvelopeModel| payload_result(envelope),
        ),
{
    match decode_reply(reply) {
        Ok(response) => response.into_data(),
        Err(error) => Err(error),
    }
}

/// A reply whose HTTP status is a success and whose body is an envelope
/// with the verdict `ok`, in whatever case, and a payload yields that
/// payload: as it came, and in every shape that it has.
pub proof fn lemma_ok_envelope_yields_data<T>(
    reply: HttpReply,
    envelope: EnvelopeModel,
    shape: spec_fn(JsonModel) -> Option<T>,
    complaint: Seq<char>,
)
    requires
        is_success_status(reply.status),
        json_parse(reply.body@) is Some,
        envelope_of(json_parse(reply.body@)->Some_0) == Some(envelope),
        is_ok_status(envelope.status),
        envelope.data is Some,
    ensures
        reply_envelope(reply) == Ok::<EnvelopeModel, ApiErrorView>(envelope),
        reply_result(reply, |e: EnvelopeModel| payload_result(e)) == Ok::<
            JsonModel,
            ApiErrorView,
        >(envelope.data->Some_0),
        shape(envelope.data->Some_0) is Some ==> reply_result(
            reply,
            |e: EnvelopeModel| required_payload(e, shape, complaint),
        ) == Ok::<T, ApiErrorView>(shape(envelope.data->Some_0)->Some_0),
{
}

/// A reply whose body is an envelope with a verdict other than `ok` fails
/// with the service's normalized message, though its HTTP status is a
/// success: for an operation that answers with the message, and for one that
/// needs a payload, unless a payload is there and has the wrong shape.
pub proof fn lemma_failed_envelope_yields_api_error<T>(
    reply: HttpReply,
    envelope: EnvelopeModel,
    shape: spec_fn(JsonModel) -> Option<T>,
    complaint: Seq<char>,
)
    requires
        is_success_status(reply.status),
        json_parse(reply.body@) is Some,
        envelope_of(json_parse(reply.body@)->Some_0) == Some(envelope),
        !is_ok_status(envelope.status),
    ensures
        envelope.message == normalized_message(
            member(json_parse(reply.body@)->Some_0, "message"@),
        ),
        reply_result(reply, |e: EnvelopeModel| message_result(e)) == Err::<
            Seq<char>,
            ApiErrorView,
        >(ApiErrorView::Api(envelope.message)),
        reply_result(reply, |e: EnvelopeModel| payload_result(e)) == Err::<
            JsonModel,
            ApiErrorView,
        >(ApiErrorView::Api(envelope.message)),
        (envelope.data is Some ==> shape(envelope.data->Some_0) is Some) ==> reply_result(
            reply,
            |e: EnvelopeModel| required_payload(e, shape, complaint),
        ) == Err::<T, ApiErrorView>(ApiErrorView::Api(envelope.message)),
{
}

/// A reply whose HTTP status is no success fails as a transport failure
/// whatever its body holds and whatever the operation: the body is not
/// looked into. The failure carries the start of the body, 256 characters
/// at most.
pub proof fn lemma_failed_status_yields_transport_error<T>(
    reply: HttpReply,
    operation: spec_fn(EnvelopeModel) -> Result<T, ApiErrorView>,
)
    requires
        !is_success_status(reply.status),
    ensures
        forall|read: Result<JsonModel, Seq<char>>| #[trigger]
            decoded_reply(reply.status, reply.body@, read) == Err::<
                EnvelopeModel,
                ApiErrorView,
            >(
                ApiErrorView::Transport {
                    status: reply.status,
                    body_snippet: take_chars(reply.body@, BODY_SNIPPET_CHARS as nat),
                },
            ),
        reply_result(reply, operation) == Err::<T, ApiErrorView>(
            ApiErrorView::Transport {
                status: reply.status,
                body_snippet: take_chars(reply.body@, BODY_SNIPPET_CHARS as nat),
            },
        ),
        take_chars(reply.body@, BODY_SNIPPET_CHARS as nat).len() <= 256,
        take_chars(reply.body@, BODY_SNIPPET_CHARS as nat).is_prefix_of(reply.body@),
{
}

/// A reply whose HTTP status is a success and whose body is no JSON fails
/// as a decode failure that carries the parser's diagnostic, whatever the
/// operation: it is no transport failure, no failure of the service, and
/// yields no envelope.
pub proof fn lemma_unreadable_body_yields_decode_error<T>(
    reply: HttpReply,
    operation: spec_fn(EnvelopeModel) -> Result<T, ApiErrorView>,
)
    requires
        is_success_status(reply.status),
        json_parse(reply.body@) is None,
    ensures
        reply_envelope(reply) == Err::<EnvelopeModel, ApiErrorView>(
            ApiErrorView::Decode(json_error_text(reply.body@)),
        ),
        reply_result(reply, operation) == Err::<T, ApiErrorView>(
            ApiErrorView::Decode(json_error_text(reply.body@)),
        ),
{
}

} // verus!
