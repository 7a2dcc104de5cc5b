use reqwest_cookie_store::CookieStoreMutex;
use scalar_desktop::http::{assemble, build_client, client_error, client_settings};
use scalar_desktop::http::{client_started, Http};
use scalar_desktop::http::{CONNECT_TIMEOUT, REQUEST_TIMEOUT, VERSION};
use scalar_desktop::jar::load_jar;
use std::path::PathBuf;
use std::sync::Arc;
use std::time::{Duration, Instant};

fn empty_jar() -> Arc<CookieStoreMutex> {
    Arc::new(CookieStoreMutex::new(cookie_store::CookieStore::default()))
}

/// A server that is not there has to fail, and fail quickly, rather than leaving the
/// request outstanding with nothing on screen to explain it. The error is what the command
/// turns into a string, which the shim rethrows so the web app shows its usual failure.
#[test]
fn a_server_that_is_not_there_fails_rather_than_hanging() {
    let client = build_client(empty_jar()).expect("client should build");
    let runtime = tokio::runtime::Builder::new_current_thread()
        .enable_all()
        .build()
        .expect("runtime should build");

    let started = Instant::now();
    // Port 1 on loopback: nothing listens there, so the connection is refused outright.
    let result = runtime.block_on(async { client.get("http://127.0.0.1:1/health").send().await });

    assert!(
        result.is_err(),
        "a refused connection must surface as an error"
    );
    assert!(
        started.elapsed() < Duration::from_secs(CONNECT_TIMEOUT),
        "a refused connection should fail immediately, not wait out the connect timeout",
    );
}

#[test]
fn the_client_is_set_up_to_give_up() {
    let settings = client_settings();
    assert_eq!(settings.connect_timeout, 10);
    assert_eq!(settings.timeout, 30);
    assert!(CONNECT_TIMEOUT < REQUEST_TIMEOUT);
}

#[test]
fn the_client_names_the_app_and_its_version() {
    assert_eq!(client_settings().user_agent, format!("Scalar/{VERSION}"));
    assert_eq!(VERSION, "0.1.0");
}

#[test]
fn a_client_that_does_not_start_says_why() {
    assert_eq!(client_error("no TLS"), "could not start the HTTP client: no TLS");
}

#[test]
fn the_shell_and_the_client_share_one_jar() {
    let jar = Arc::new(CookieStoreMutex::new(load_jar(None, 0)));
    let path = PathBuf::from("scalar/cookies.json");
    let http = Http::new(jar.clone(), path.clone()).expect("client should build");
    assert!(Arc::ptr_eq(&http.jar, &jar));
    assert_eq!(http.path, path);
}

#[test]
fn an_attempt_to_start_a_client_is_reported() {
    let refused = client_started(Err("no TLS".to_string()));
    assert_eq!(refused.unwrap_err(), "could not start the HTTP client: no TLS");
    let client = build_client(empty_jar()).expect("client should build");
    assert!(client_started(Ok(client)).is_ok());
}

#[test]
fn a_started_client_is_kept_with_its_jar_and_file() {
    let jar = empty_jar();
    let path = PathBuf::from("scalar/cookies.json");
    let client = build_client(jar.clone()).expect("client should build");
    let http = assemble(Ok(client), jar.clone(), path.clone()).expect("there is a client");
    assert!(Arc::ptr_eq(&http.jar, &jar));
    assert_eq!(http.path, path);

    let refused = assemble(Err("no TLS".to_string()), jar, path).err().expect("there is none");
    assert_eq!(refused, "could not start the HTTP client: no TLS");
}
