//! What Scalar's native shell decides.
//!
//! The interface is the same web app that runs in a browser, loaded from files inside the bundle.
//! The shell exists for one thing the webview cannot do: carry the session. A packaged app is
//! served from `tauri://localhost`, so every call to a Scalar server is cross origin. The session
//! cookie is `HttpOnly` and `SameSite=Lax`, which means a webview will not send it, and the API's
//! CORS allowlist would not name this origin anyway. Rather than loosening either of those on the
//! server, requests are made by the shell, where a normal HTTP client with its own cookie jar
//! applies. Nothing about the API changes to support native apps.
//!
//! Everything else here exists because a webview on its own is not an application: it has no menu,
//! so on macOS copy and paste do not work, it has no zoom, and a link to another site would
//! navigate the window away from the app with no way back.

pub mod api;
pub mod headers;
pub mod http;
pub mod jar;
pub mod launch;
pub mod menu;
pub mod navigation;
pub mod platform;
pub mod script;
mod text;
pub mod window;
pub mod zoom;
