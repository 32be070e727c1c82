//! The credentials that a login leaves behind for the other commands.

use vstd::prelude::*;
use vstd::string::*;
use crate::api::{ApiClient, ClientModel};
use crate::json::{
    get_string, json_model, json_read, parse_value, string_member, JsonModel,
};
use crate::text::{join2, join3, owned, trim_end_slashes};

verus! {

/// Token, address of the service and name of the user.
#[derive(Debug)]
pub struct Config {
    pub token: String,
    pub server_url: String,
    pub username: String,
}

/// A `Config` as a mathematical value.
pub struct ConfigModel {
    pub token: Seq<char>,
    pub server_url: Seq<char>,
    pub username: Seq<char>,
}

impl View for Config {
    type V = ConfigModel;

    open spec fn view(&self) -> ConfigModel {
        ConfigModel { token: self.token@, server_url: self.server_url@, username: self.username@ }
    }
}

impl Clone for Config {
    fn clone(&self) -> (r: Config)
        ensures
            r@ == self@,
    {
        Config {
            token: self.token.clone(),
            server_url: self.server_url.clone(),
            username: self.username.clone(),
        }
    }
}

/// Why a credentials file could not be used.
#[derive(Debug)]
pub enum ConfigError {
    /// The content was no credentials; the text is a diagnostic for the user.
    Parse(String),
}

/// The credentials that a JSON value holds: an object with the text members
/// `token`, `server_url` and `username`.
pub open spec fn credentials_of(j: JsonModel) -> Option<ConfigModel> {
    match (
        string_member(j, "token"@),
        string_member(j, "server_url"@),
        string_member(j, "username"@),
    ) {
        (Some(token), Some(server_url), Some(username)) => Some(
            ConfigModel { token, server_url, username },
        ),
        _ => None,
    }
}

/// The diagnostic for a file that is JSON and holds no credentials.
pub open spec fn no_credentials_text() -> Seq<char> {
    "the file holds no credentials"@
}

/// The credentials that the content of a file holds, given what reading it
/// as JSON yields; the diagnostic where it holds none, the parser's where
/// the content is no JSON.
pub open spec fn read_credentials(read: Result<JsonModel, Seq<char>>) -> Result<
    ConfigModel,
    Seq<char>,
> {
    match read {
        Err(diagnostic) => Err(diagnostic),
        Ok(j) => match credentials_of(j) {
            Some(credentials) => Ok(credentials),
            None => Err(no_credentials_text()),
        },
    }
}

/// The model of the outcome of reading credentials.
pub open spec fn credentials_outcome_model(outcome: Result<Config, ConfigError>) -> Result<
    ConfigModel,
    Seq<char>,
> {
    match outcome {
        Ok(credentials) => Ok(credentials@),
        Err(ConfigError::Parse(diagnostic)) => Err(diagnostic@),
    }
}

/// The path of a file in a directory: the two joined by a slash, unless the
/// directory is empty or ends in one.
pub open spec fn path_in_directory(directory: Seq<char>, file: Seq<char>) -> Seq<char> {
    if directory.len() == 0 || directory.last() == '/' {
        directory + file
    } else {
        directory + "/"@ + file
    }
}

/// The keeper of the credentials file.
pub struct ConfigManager;

impl ConfigManager {
    /// The path of the credentials file for a home directory.
    pub fn get_config_file_path(home_dir: &str) -> (r: String)
        ensures
            r@ == path_in_directory(home_dir@, "astrbot.json"@),
    {
        let len: usize = home_dir.unicode_len();
        if len == 0 || home_dir.get_char(len - 1) == '/' {
            join2(home_dir, "astrbot.json")
        } else {
            join3(home_dir, "/", "astrbot.json")
        }
    }

    /// Reads credentials from a parsed file.
    pub fn credentials_from_json(value: &serde_json::Value) -> (r: Option<Config>)
        ensures
            match r {
                Some(credentials) => credentials_of(json_model(*value)) == Some(credentials@),
                None => credentials_of(json_model(*value)) is None,
            },
    {
        let token = match get_string(value, "token") {
            Some(token) => token,
            None => { return None; },
        };
        let server_url = match get_string(value, "server_url") {
            Some(server_url) => server_url,
            None => { return None; },
        };
        let username = match get_string(value, "username") {
            Some(username) => username,
            None => { return None; },
        };
        Some(Config { token, server_url, username })
    }

    /// Reads credentials from the content of the file.
    pub fn load_credentials(content: &str) -> (r: Result<Config, ConfigError>)
        ensures
            credentials_outcome_model(r) == read_credentials(json_read(content@)),
    {
        match parse_value(content) {
            Err(diagnostic) => Err(ConfigError::Parse(diagnostic)),
            Ok(value) => match ConfigManager::credentials_from_json(&value) {
                Some(credentials) => Ok(credentials),
                None => Err(ConfigError::Parse(owned("the file holds no credentials"))),
            },
        }
    }
}

/// The client for the service that the credentials name.
pub fn build_client(credentials: &Config) -> (r: ApiClient)
    ensures
        r@ == (ClientModel {
            base_url: trim_end_slashes(credentials@.server_url),
            token: credentials@.token,
        }),
{
    ApiClient::new(owned(credentials.server_url.as_str()), owned(credentials.token.as_str()))
}

} // verus!
