//! Outbound requests as plain values: what is to be sent, for a transport to
//! carry out.

use vstd::prelude::*;
use vstd::string::*;
use crate::text::owned;

verus! {

/// The HTTP methods that the service is spoken to with.
#[derive(Clone, Copy, Debug, PartialEq, Eq, Structural)]
pub enum Method {
    Get,
    Post,
}

/// The name of a method as it goes on the wire.
pub open spec fn method_name(method: Method) -> Seq<char> {
    match method {
        Method::Get => "GET"@,
        Method::Post => "POST"@,
    }
}

impl Method {
    /// The name of the method as it goes on the wire.
    pub fn as_str(&self) -> (r: &'static str)
        ensures
            r@ == method_name(*self),
    {
        match self {
            Method::Get => "GET",
            Method::Post => "POST",
        }
    }
}

/// One member of a JSON object body: a name and a text value.
#[derive(Debug)]
pub struct JsonField {
    pub name: String,
    pub value: String,
}

impl View for JsonField {
    type V = (Seq<char>, Seq<char>);

    open spec fn view(&self) -> (Seq<char>, Seq<char>) {
        (self.name@, self.value@)
    }
}

/// What a request carries besides its headers.
#[derive(Debug)]
pub enum RequestBody {
    /// Nothing.
    Empty,
    /// A JSON object with the given members.
    Json(Vec<JsonField>),
    /// A multipart form with one part, the content of a local file.
    FileUpload { field: String, path: String },
}

/// A `RequestBody` as a mathematical value.
pub enum BodyModel {
    Empty,
    Json(Seq<(Seq<char>, Seq<char>)>),
    FileUpload { field: Seq<char>, path: Seq<char> },
}

/// The members of a JSON body as pairs of texts.
pub open spec fn fields_model(fields: Seq<JsonField>) -> Seq<(Seq<char>, Seq<char>)> {
    Seq::new(fields.len(), |i: int| fields[i]@)
}

impl View for RequestBody {
    type V = BodyModel;

    open spec fn view(&self) -> BodyModel {
        match self {
            RequestBody::Empty => BodyModel::Empty,
            RequestBody::Json(fields) => BodyModel::Json(fields_model(fields@)),
            RequestBody::FileUpload { field, path } => BodyModel::FileUpload {
                field: field@,
                path: path@,
            },
        }
    }
}

/// A request ready to be sent: method, absolute URL, the value of the
/// `Authorization` header where there is one, and the body.
#[derive(Debug)]
pub struct Request {
    pub method: Method,
    pub url: String,
    pub authorization: Option<String>,
    pub body: RequestBody,
}

/// A `Request` as a mathematical value.
pub struct RequestModel {
    pub method: Method,
    pub url: Seq<char>,
    pub authorization: Option<Seq<char>>,
    pub body: BodyModel,
}

impl View for Request {
    type V = RequestModel;

    open spec fn view(&self) -> RequestModel {
        RequestModel {
            method: self.method,
            url: self.url@,
            authorization: match self.authorization {
                Some(value) => Some(value@),
                None => None,
            },
            body: self.body@,
        }
    }
}

/// The name of the header that carries the token.
pub fn authorization_header() -> (r: &'static str)
    ensures
        r@ == "Authorization"@,
{
    "Authorization"
}

/// A JSON object body with one member.
pub fn json_body1(name: &str, value: &str) -> (r: RequestBody)
    ensures
        r@ == BodyModel::Json(seq![(name@, value@)]),
{
    let mut fields: Vec<JsonField> = Vec::new();
    fields.push(JsonField { name: owned(name), value: owned(value) });
    assert(fields_model(fields@) =~= seq![(name@, value@)]);
    RequestBody::Json(fields)
}

/// A JSON object body with two members, in the order given.
pub fn json_body2(name1: &str, value1: &str, name2: &str, value2: &str) -> (r: RequestBody)
    ensures
        r@ == BodyModel::Json(seq![(name1@, value1@), (name2@, value2@)]),
{
    let mut fields: Vec<JsonField> = Vec::new();
    fields.push(JsonField { name: owned(name1), value: owned(value1) });
    fields.push(JsonField { name: owned(name2), value: owned(value2) });
    assert(fields_model(fields@) =~= seq![(name1@, value1@), (name2@, value2@)]);
    RequestBody::Json(fields)
}

} // verus!
