# Scalar for the desktop

The native shell around Scalar. The interface is the same web app that runs in a browser; the shell
carries its requests, keeps its session, and gives it a window that behaves like an application.

`src/` holds what the shell decides, with contracts that Verus proves:

- `api`: one request of the web app, from what is sent to what the web app is told of the answer
- `headers`: HTTP headers by name
- `http`: the client, and how it is set up
- `jar`: the cookie jar, what is written of it and what a launch reads back
- `launch`: what a launch sets up, and the events that follow it
- `menu`: the menu bar, and what its commands do
- `navigation`: which addresses the window shows
- `platform`: the systems the shell runs on
- `script`: the scripts that run before the app's own
- `window`: what a window has
- `zoom`: how far the webview is zoomed

`app/` is the program around it: Tauri, the network, the disk and the clock. `main.rs` is the root on
the desktop, and `lib.rs` the root on iOS and Android.
