//! Signing in: the request that carries the user's name and the digest of
//! the password, and what the service's reply means.

use vstd::prelude::*;
use vstd::string::*;
use crate::config::{Config, ConfigModel};
use crate::digest::{md5_hex, md5_hex_text};
use crate::json::{
    bool_member, get_bool, get_present, get_string, json_model, json_read, parse_value,
    present_member, string_member, value_as_str, JsonModel,
};
use crate::request::{json_body2, BodyModel, Method, Request, RequestModel};
use crate::text::{join2, owned, strip_trailing_slashes, trim_end_slashes};

verus! {

/// What the service sends on a successful login.
#[derive(Debug)]
pub struct LoginData {
    pub token: String,
    pub username: String,
    pub change_pwd_hint: bool,
}

/// A `LoginData` as a mathematical value.
pub struct LoginDataModel {
    pub token: Seq<char>,
    pub username: Seq<char>,
    pub change_pwd_hint: bool,
}

impl View for LoginData {
    type V = LoginDataModel;

    open spec fn view(&self) -> LoginDataModel {
        LoginDataModel {
            token: self.token@,
            username: self.username@,
            change_pwd_hint: self.change_pwd_hint,
        }
    }
}

/// The reply to a login.
#[derive(Debug)]
pub struct LoginResponse {
    pub status: String,
    pub message: Option<String>,
    pub data: Option<LoginData>,
}

/// A `LoginResponse` as a mathematical value.
pub struct LoginResponseModel {
    pub status: Seq<char>,
    pub message: Option<Seq<char>>,
    pub data: Option<LoginDataModel>,
}

impl View for LoginResponse {
    type V = LoginResponseModel;

    open spec fn view(&self) -> LoginResponseModel {
        LoginResponseModel {
            status: self.status@,
            message: match self.message {
                Some(message) => Some(message@),
                None => None,
            },
            data: match self.data {
                Some(data) => Some(data@),
                None => None,
            },
        }
    }
}

/// Why a login did not yield credentials.
#[derive(Debug)]
pub enum LoginError {
    /// The reply was no login reply; the text is a diagnostic for the user.
    Decode(String),
    /// The service accepted the login and sent no token.
    MissingData,
    /// The service rejected the login, with this message.
    Rejected(String),
}

/// A `LoginError` as a mathematical value.
pub enum LoginErrorView {
    Decode(Seq<char>),
    MissingData,
    Rejected(Seq<char>),
}

impl View for LoginError {
    type V = LoginErrorView;

    open spec fn view(&self) -> LoginErrorView {
        match self {
            LoginError::Decode(diagnostic) => LoginErrorView::Decode(diagnostic@),
            LoginError::MissingData => LoginErrorView::MissingData,
            LoginError::Rejected(message) => LoginErrorView::Rejected(message@),
        }
    }
}

/// The words in which a failed login is told to the user.
pub open spec fn login_error_message(error: LoginError) -> Seq<char> {
    match error {
        LoginError::Decode(diagnostic) => "Error parsing login response: "@ + diagnostic@,
        LoginError::MissingData => "Error: Login response missing data"@,
        LoginError::Rejected(message) => "Login failed: "@ + message@,
    }
}

impl LoginError {
    /// The words in which the failed login is told to the user.
    pub fn message(&self) -> (r: String)
        ensures
            r@ == login_error_message(*self),
    {
        match self {
            LoginError::Decode(diagnostic) => join2(
                "Error parsing login response: ",
                diagnostic.as_str(),
            ),
            LoginError::MissingData => owned("Error: Login response missing data"),
            LoginError::Rejected(message) => join2("Login failed: ", message.as_str()),
        }
    }
}

/// The address that a login is sent to.
pub open spec fn login_url_text(server: Seq<char>) -> Seq<char> {
    trim_end_slashes(server) + "/api/auth/login"@
}

/// The login request: the user's name and the digest of the password, sent
/// without a token.
pub open spec fn login_request_model(
    username: Seq<char>,
    password: Seq<char>,
    server: Seq<char>,
) -> RequestModel {
    RequestModel {
        method: Method::Post,
        url: login_url_text(server),
        authorization: None,
        body: BodyModel::Json(
            seq![("username"@, username), ("password"@, md5_hex_text(password))],
        ),
    }
}

/// The login data that a JSON value holds: an object with the text members
/// `token` and `username` and the boolean member `change_pwd_hint`.
pub open spec fn login_data_of(j: JsonModel) -> Option<LoginDataModel> {
    match (
        string_member(j, "token"@),
        string_member(j, "username"@),
        bool_member(j, "change_pwd_hint"@),
    ) {
        (Some(token), Some(username), Some(change_pwd_hint)) => Some(
            LoginDataModel { token, username, change_pwd_hint },
        ),
        _ => None,
    }
}

/// The login reply that a JSON value holds: an object whose `status` is a
/// text, whose `message` is a text where it is there and not null, and whose
/// `data` is login data where it is there and not null.
pub open spec fn login_response_of(j: JsonModel) -> Option<LoginResponseModel> {
    match string_member(j, "status"@) {
        None => None,
        Some(status) => {
            let message = present_member(j, "message"@);
            let data = present_member(j, "data"@);
            if message is Some && !(message->Some_0 is Str) {
                None
            } else if data is Some && login_data_of(data->Some_0) is None {
                None
            } else {
                Some(
                    LoginResponseModel {
                        status,
                        message: match message {
                            Some(JsonModel::Str(text)) => Some(text),
                            _ => None,
                        },
                        data: match data {
                            Some(d) => login_data_of(d),
                            None => None,
                        },
                    },
                )
            }
        },
    }
}

/// Whether the service accepted the login: the status is exactly `ok`.
pub open spec fn login_accepted(status: Seq<char>) -> bool {
    status == "ok"@
}

/// What a login reply means for a login at `server`: the credentials to
/// keep, or why there are none.
pub open spec fn login_result(response: LoginResponseModel, server: Seq<char>) -> Result<
    ConfigModel,
    LoginErrorView,
> {
    if login_accepted(response.status) {
        match response.data {
            Some(data) => Ok(
                ConfigModel { token: data.token, server_url: server, username: data.username },
            ),
            None => Err(LoginErrorView::MissingData),
        }
    } else {
        Err(
            LoginErrorView::Rejected(
                match response.message {
                    Some(message) => message,
                    None => "Unknown error"@,
                },
            ),
        )
    }
}

/// The diagnostic for a body that is JSON and no login reply.
pub open spec fn no_login_reply_text() -> Seq<char> {
    "the reply is no login reply"@
}

/// What a parsed login reply means for a login at `server`.
pub open spec fn json_login_result(j: JsonModel, server: Seq<char>) -> Result<
    ConfigModel,
    LoginErrorView,
> {
    match login_response_of(j) {
        None => Err(LoginErrorView::Decode(no_login_reply_text())),
        Some(response) => login_result(response, server),
    }
}

/// What the body of a login reply means, given what reading it as JSON
/// yields. A body that is no JSON is a decode failure with the parser's
/// diagnostic.
pub open spec fn read_login_result(read: Result<JsonModel, Seq<char>>, server: Seq<char>) -> Result<
    ConfigModel,
    LoginErrorView,
> {
    match read {
        Err(diagnostic) => Err(LoginErrorView::Decode(diagnostic)),
        Ok(j) => json_login_result(j, server),
    }
}

/// The model of the outcome of a login.
pub open spec fn login_outcome_model(outcome: Result<Config, LoginError>) -> Result<
    ConfigModel,
    LoginErrorView,
> {
    match outcome {
        Ok(credentials) => Ok(credentials@),
        Err(error) => Err(error@),
    }
}

/// The request that signs a user in at a server.
pub fn login_request(username: &str, password: &str, server: &str) -> (r: Request)
    ensures
        r@ == login_request_model(username@, password@, server@),
{
    let password_hash = md5_hex(password);
    let base = strip_trailing_slashes(server);
    Request {
        method: Method::Post,
        url: join2(base.as_str(), "/api/auth/login"),
        authorization: None,
        body: json_body2("username", username, "password", password_hash.as_str()),
    }
}

impl LoginData {
    /// Reads login data.
    pub fn from_json(value: &serde_json::Value) -> (r: Option<LoginData>)
        ensures
            match r {
                Some(data) => login_data_of(json_model(*value)) == Some(data@),
                None => login_data_of(json_model(*value)) is None,
            },
    {
        let token = match get_string(value, "token") {
            Some(token) => token,
            None => { return None; },
        };
        let username = match get_string(value, "username") {
            Some(username) => username,
            None => { return None; },
        };
        let change_pwd_hint = match get_bool(value, "change_pwd_hint") {
            Some(hint) => hint,
            None => { return None; },
        };
        Some(LoginData { token, username, change_pwd_hint })
    }
}

impl LoginResponse {
    /// Reads a login reply.
    pub fn from_json(value: &serde_json::Value) -> (r: Option<LoginResponse>)
        ensures
            match r {
                Some(response) => login_response_of(json_model(*value)) == Some(response@),
                None => login_response_of(json_model(*value)) is None,
            },
    {
        let status = match get_string(value, "status") {
            Some(status) => status,
            None => { return None; },
        };
        let message = match get_present(value, "message") {
            Some(m) => match value_as_str(m) {
                Some(text) => Some(owned(text)),
                None => { return None; },
            },
            None => None,
        };
        let data = match get_present(value, "data") {
            Some(d) => match LoginData::from_json(d) {
                Some(data) => Some(data),
                None => { return None; },
            },
            None => None,
        };
        Some(LoginResponse { status, message, data })
    }

    /// Whether the service accepted the login.
    pub fn is_ok(&self) -> (r: bool)
        ensures
            r == login_accepted(self.status@),
    {
        let status = self.status.as_str();
        proof {
            reveal_strlit("ok");
        }
        if status.unicode_len() != 2 {
            return false;
        }
        let accepted = status.get_char(0) == 'o' && status.get_char(1) == 'k';
        assert(accepted == (status@ =~= "ok"@));
        accepted
    }
}

/// What a login reply means for a login at `server`.
pub fn login_outcome(response: LoginResponse, server: &str) -> (r: Result<Config, LoginError>)
    ensures
        login_outcome_model(r) == login_result(response@, server@),
{
    if response.is_ok() {
        match response.data {
            Some(data) => Ok(
                Config { token: data.token, server_url: owned(server), username: data.username },
            ),
            None => Err(LoginError::MissingData),
        }
    } else {
        match response.message {
            Some(message) => Err(LoginError::Rejected(message)),
            None => Err(LoginError::Rejected(owned("Unknown error"))),
        }
    }
}

/// What a parsed login reply means for a login at `server`.
pub fn login_from_json(value: &serde_json::Value, server: &str) -> (r: Result<Config, LoginError>)
    ensures
        login_outcome_model(r) == json_login_result(json_model(*value), server@),
{
    match LoginResponse::from_json(value) {
        Some(response) => login_outcome(response, server),
        None => Err(LoginError::Decode(owned("the reply is no login reply"))),
    }
}

/// What the body of a login reply means for a login at `server`: the
/// credentials to keep, or why there are none. The HTTP status of the reply
/// plays no part.
pub fn handle_login(body: &str, server: &str) -> (r: Result<Config, LoginError>)
    ensures
        login_outcome_model(r) == read_login_result(json_read(body@), server@),
{
    match parse_value(body) {
        Err(diagnostic) => Err(LoginError::Decode(diagnostic)),
        Ok(value) => login_from_json(&value, server),
    }
}

} // verus!
