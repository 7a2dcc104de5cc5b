//! The HTTP client and the cookie jar it draws on.

use crate::text::join;
use reqwest_cookie_store::CookieStoreMutex;
use std::path::PathBuf;
use std::sync::Arc;
use vstd::prelude::*;

verus! {

/// The version of the app.
pub const VERSION: &'static str = "0.1.0";

/// How long to wait on a Scalar server before giving up, in seconds.
///
/// Without this a server that accepts the connection and then says nothing leaves the app waiting
/// for ever, with no way for the person to tell that anything is wrong.
pub const REQUEST_TIMEOUT: u64 = 30;

/// How long to wait for a connection to a Scalar server, in seconds.
pub const CONNECT_TIMEOUT: u64 = 10;

/// The outside type that makes requests.
#[verifier::external_type_specification]
#[verifier::external_body]
pub struct ExClient(reqwest::Client);

/// The outside type that shares a jar between the client and the shell.
#[verifier::external_type_specification]
#[verifier::external_body]
pub struct ExCookieStoreMutex(CookieStoreMutex);

/// The outside type of a path on disk.
#[verifier::external_type_specification]
#[verifier::external_body]
pub struct ExPathBuf(PathBuf);

/// The HTTP client and the cookie jar it draws on, for the life of the app.
///
/// The jar is written to disk because the alternative is signing in again every single launch.
/// The window remembers its size and the app remembers its server, so a session that did not
/// survive closing the window was the one thing that made the app feel disposable.
///
/// What that means in practice: the session cookie sits in a file in your own user profile,
/// readable by anything running as you. That is the same bargain every browser makes with its
/// cookie database, and the file holds one cookie for one self-hosted server. Deleting it, or
/// signing out, is enough to end the session.
pub struct Http {
    pub client: reqwest::Client,
    pub jar: Arc<CookieStoreMutex>,
    pub path: PathBuf,
}

/// How a client is set up, apart from the jar it draws on.
#[derive(Debug)]
pub struct ClientSettings {
    /// Seconds.
    pub connect_timeout: u64,
    /// Seconds.
    pub timeout: u64,
    pub user_agent: String,
}

impl ClientSettings {
    /// Whether these are the settings that the app runs with.
    pub open spec fn is_standard(&self) -> bool {
        &&& self.connect_timeout == CONNECT_TIMEOUT
        &&& self.timeout == REQUEST_TIMEOUT
        &&& self.user_agent@ == "Scalar/"@ + VERSION@
    }
}

/// [`reqwest::ClientBuilder::build`], on a builder that draws its cookies from `jar` and is set up
/// as `settings` say: a client, or the text of the error.
///
/// Nothing is stated of the client, nor of when there is one: the builder also reads the machine's
/// proxy settings and starts its TLS library.
#[verifier::external_body]
fn start_client(jar: Arc<CookieStoreMutex>, settings: &ClientSettings) -> (r: Result<
    reqwest::Client,
    String,
>)
    requires
        settings.is_standard(),
{
    reqwest::Client::builder()
        .cookie_provider(jar)
        .connect_timeout(std::time::Duration::from_secs(settings.connect_timeout))
        .timeout(std::time::Duration::from_secs(settings.timeout))
        .user_agent(settings.user_agent.as_str())
        .build()
        .map_err(|error| error.to_string())
}

/// The settings that the app runs with.
pub fn client_settings() -> (r: ClientSettings)
    ensures
        r.is_standard(),
{
    ClientSettings {
        connect_timeout: CONNECT_TIMEOUT,
        timeout: REQUEST_TIMEOUT,
        user_agent: join("Scalar/", VERSION),
    }
}

/// What is said of a client that could not be started for `error`.
pub fn client_error(error: &str) -> (r: String)
    ensures
        r@ == "could not start the HTTP client: "@ + error@,
{
    join("could not start the HTTP client: ", error)
}

/// What is made of an attempt to start a client, given as the client or the text of the error: the
/// client as it is, or what is said of the error.
pub fn client_started(started: Result<reqwest::Client, String>) -> (r: Result<
    reqwest::Client,
    String,
>)
    ensures
        match started {
            Ok(client) => r == Ok::<reqwest::Client, String>(client),
            Err(error) => {
                &&& r matches Err(message)
                &&& message@ == "could not start the HTTP client: "@ + error@
            },
        },
{
    match started {
        Ok(client) => Ok(client),
        Err(error) => Err(client_error(error.as_str())),
    }
}

/// A client that draws its cookies from `jar`, set up as [`client_settings`] say.
///
/// Whether there is one depends on the machine; [`client_started`] says what is returned of each
/// outcome.
pub fn build_client(jar: Arc<CookieStoreMutex>) -> (r: Result<reqwest::Client, String>)
    ensures
        r matches Err(message) ==> exists|error: Seq<char>|
            message@ == #[trigger] ("could not start the HTTP client: "@ + error),
{
    let settings = client_settings();
    client_started(start_client(jar, &settings))
}

/// What is made of an attempt to start a client for `jar`, where `path` is the jar's file: the three
/// together, or what is said of the error.
pub fn assemble(
    started: Result<reqwest::Client, String>,
    jar: Arc<CookieStoreMutex>,
    path: PathBuf,
) -> (r: Result<Http, String>)
    ensures
        match started {
            Ok(client) => {
                &&& r matches Ok(http)
                &&& http.client == client
                &&& http.jar == jar
                &&& http.path == path
            },
            Err(error) => {
                &&& r matches Err(message)
                &&& message@ == "could not start the HTTP client: "@ + error@
            },
        },
{
    match client_started(started) {
        Ok(client) => Ok(Http { client, jar, path }),
        Err(message) => Err(message),
    }
}

impl Http {
    /// The client and the jar for the life of the app, where `path` is the jar's file.
    ///
    /// Whether there is a client depends on the machine; [`assemble`] says what is returned of each
    /// outcome.
    pub fn new(jar: Arc<CookieStoreMutex>, path: PathBuf) -> (r: Result<Http, String>)
        ensures
            match r {
                Ok(http) => http.jar == jar && http.path == path,
                Err(message) => exists|error: Seq<char>|
                    message@ == #[trigger] ("could not start the HTTP client: "@ + error),
            },
    {
        let settings = client_settings();
        let started = start_client(jar.clone(), &settings);
        assemble(started, jar, path)
    }
}

/// Every wait has an end, and connecting is given up before the request it is for.
pub proof fn every_wait_ends(settings: ClientSettings)
    requires
        settings.is_standard(),
    ensures
        0 < settings.connect_timeout < settings.timeout,
        settings.connect_timeout == 10,
        settings.timeout == 30,
{
}

/// The client tells a server that it is Scalar, and which version.
pub proof fn client_names_itself(settings: ClientSettings)
    requires
        settings.is_standard(),
    ensures
        settings.user_agent@ == "Scalar/0.1.0"@,
{
    reveal_strlit("Scalar/");
    reveal_strlit("0.1.0");
    reveal_strlit("Scalar/0.1.0");
    assert(settings.user_agent@ =~= "Scalar/0.1.0"@);
}

} // verus!
