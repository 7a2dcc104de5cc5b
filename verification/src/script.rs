//! The scripts that run before the app's own.

use crate::platform::Platform;
use vstd::prelude::*;

verus! {

/// Runs before any page script, so the app finds its transport already in place.
///
/// Note what this does not do: it does not make remote images render. The content security
/// policy keeps `img-src` to `'self' data:` on purpose, because a remote image in an email is
/// usually a tracking pixel. Carrying image bytes correctly and choosing to display them are
/// separate decisions, and only the first one belongs here.
///
/// It defines the hook that the web app looks for. The web app stays unaware that it is running in
/// a native shell: it asks for a fetch and gets one.
///
/// Bodies cross the boundary as arrays of bytes in both directions, because JSON has no way to
/// carry arbitrary binary and anything lossy here would corrupt an attachment.
pub const BOOTSTRAP: &'static str = r#"
(() => {
  const invoke = window.__TAURI_INTERNALS__ && window.__TAURI_INTERNALS__.invoke;
  if (!invoke) return;

  window.__SCALAR_NATIVE__ = true;

  const toBytes = async (body) => {
    if (body == null) return null;
    if (typeof body === 'string') return Array.from(new TextEncoder().encode(body));
    if (body instanceof ArrayBuffer) return Array.from(new Uint8Array(body));
    if (ArrayBuffer.isView(body)) {
      return Array.from(new Uint8Array(body.buffer, body.byteOffset, body.byteLength));
    }
    if (body instanceof Blob) return Array.from(new Uint8Array(await body.arrayBuffer()));
    return Array.from(new TextEncoder().encode(String(body)));
  };

  window.__SCALAR_FETCH__ = async (url, init = {}) => {
    const headers = {};
    new Headers(init.headers || {}).forEach((value, key) => {
      headers[key] = value;
    });

    let result;
    try {
      result = await invoke('api_fetch', {
        request: {
          url,
          method: (init.method || 'GET').toUpperCase(),
          headers,
          body: await toBytes(init.body),
        },
      });
    } catch (reason) {
      // Tauri rejects a failed command with a plain string. The SDK keeps the message only when
      // the cause is an Error, so without this every transport failure reads as a generic
      // "network request failed" and the real reason, such as a timeout or a refused
      // connection, is thrown away. TypeError is what fetch itself throws when a request never
      // completes, so the web app handles this exactly as it handles a browser failure.
      throw new TypeError(typeof reason === 'string' ? reason : 'Network request failed');
    }

    const bytes = new Uint8Array(result.body);
    // 204 and 304 must be constructed with a null body or the Response constructor throws.
    const empty = bytes.byteLength === 0 || result.status === 204 || result.status === 304;
    return new Response(empty ? null : bytes, {
      status: result.status,
      statusText: result.statusText,
      headers: result.headers,
    });
  };
})();
"#;

/// How tall the app draws its own title bar, handed to CSS as `--sc-titlebar`.
///
/// One number, declared here because the shell is what decides there is a title bar at all. The
/// web app reads the variable rather than repeating the value.
pub const TITLEBAR_HEIGHT: &'static str = "36px";

/// The chrome script, up to the platform's name.
pub const CHROME_UP_TO_PLATFORM: &'static str = r#"
(() => {
  const invoke = window.__TAURI_INTERNALS__ && window.__TAURI_INTERNALS__.invoke;
  if (!invoke) return;

  window.__SCALAR_PLATFORM__ = '"#;

/// The chrome script, from the platform's name to the height of the title bar.
pub const CHROME_UP_TO_HEIGHT: &'static str = r#"';
  window.__SCALAR_WINDOW__ = {
    minimize: () => invoke('window_minimize'),
    toggleMaximize: () => invoke('window_toggle_maximize'),
    close: () => invoke('window_close'),
    isMaximized: () => invoke('window_is_maximized'),
  };

  const reserve = () => {
    document.documentElement.style.setProperty('--sc-titlebar', '"#;

/// The rest of the chrome script.
pub const CHROME_REST: &'static str = r#"');
  };
  if (document.documentElement) reserve();
  else document.addEventListener('DOMContentLoaded', reserve, { once: true });
})();
"#;

/// The script that tells the interface about a window whose title bar it draws.
pub open spec fn chrome(platform: Platform) -> Seq<char> {
    CHROME_UP_TO_PLATFORM@ + platform.name() + CHROME_UP_TO_HEIGHT@ + TITLEBAR_HEIGHT@
        + CHROME_REST@
}

/// The scripts that run before the app's own, one after another.
pub open spec fn boot(platform: Platform) -> Seq<char> {
    if platform.draws_title_bar() {
        BOOTSTRAP@ + chrome(platform)
    } else {
        BOOTSTRAP@
    }
}

/// Tells the interface which window it is in, and hands it the three buttons.
///
/// The system title bar is gone: hidden behind the traffic lights on macOS, and absent entirely on
/// Windows. What replaces it is drawn by the app, so it needs to know the platform (the controls
/// belong on the right on Windows and are already on the left on macOS) and it needs a way to
/// actually minimize, maximize and close.
///
/// The custom property is set here rather than by the interface because it has to be right on the
/// first frame. A bar that appears later moves the whole app down while somebody is looking at it.
pub fn chrome_script(platform: Platform) -> (r: String)
    requires
        platform.draws_title_bar(),
    ensures
        r@ == chrome(platform),
{
    let mut script = CHROME_UP_TO_PLATFORM.to_owned();
    script.append(platform.as_str());
    script.append(CHROME_UP_TO_HEIGHT);
    script.append(TITLEBAR_HEIGHT);
    script.append(CHROME_REST);
    script
}

/// Everything that runs before the app's own scripts.
pub fn boot_script(platform: Platform) -> (r: String)
    ensures
        r@ == boot(platform),
{
    let mut script = BOOTSTRAP.to_owned();
    if platform.draws_its_title_bar() {
        script.append(chrome_script(platform).as_str());
    }
    script
}

/// The app finds its transport in place on every platform, ahead of anything else.
pub proof fn transport_comes_first(platform: Platform)
    ensures
        BOOTSTRAP@.is_prefix_of(boot(platform)),
{
    assert(BOOTSTRAP@ =~= boot(platform).subrange(0, BOOTSTRAP@.len() as int));
}

/// The web app finds the fetch that it looks for. It carries a request to the shell with its body as
/// bytes, fails as a browser's own does, and gives the answer back with its status, its headers and
/// its bytes, or without a body where the status allows none.
pub proof fn transport_carries_requests()
    ensures
        exists|i: int|
            0 <= i <= BOOTSTRAP@.len() && "window.__SCALAR_NATIVE__ = true;"@.is_prefix_of(
                #[trigger] BOOTSTRAP@.skip(i),
            ),
        exists|i: int|
            0 <= i <= BOOTSTRAP@.len() && "window.__SCALAR_FETCH__ = async (url, init = {}) => {"@.is_prefix_of(
                #[trigger] BOOTSTRAP@.skip(i),
            ),
        exists|i: int|
            0 <= i <= BOOTSTRAP@.len() && "result = await invoke('api_fetch', {"@.is_prefix_of(
                #[trigger] BOOTSTRAP@.skip(i),
            ),
        exists|i: int|
            0 <= i <= BOOTSTRAP@.len() && "method: (init.method || 'GET').toUpperCase(),"@.is_prefix_of(
                #[trigger] BOOTSTRAP@.skip(i),
            ),
        exists|i: int|
            0 <= i <= BOOTSTRAP@.len() && "body: await toBytes(init.body),"@.is_prefix_of(
                #[trigger] BOOTSTRAP@.skip(i),
            ),
        exists|i: int|
            0 <= i <= BOOTSTRAP@.len() && "throw new TypeError(typeof reason === 'string' ? reason : 'Network request failed');"@.is_prefix_of(
                #[trigger] BOOTSTRAP@.skip(i),
            ),
        exists|i: int|
            0 <= i <= BOOTSTRAP@.len() && "const bytes = new Uint8Array(result.body);"@.is_prefix_of(
                #[trigger] BOOTSTRAP@.skip(i),
            ),
        exists|i: int|
            0 <= i <= BOOTSTRAP@.len() && "result.status === 204 || result.status === 304;"@.is_prefix_of(
                #[trigger] BOOTSTRAP@.skip(i),
            ),
        exists|i: int|
            0 <= i <= BOOTSTRAP@.len() && "return new Response(empty ? null : bytes, {"@.is_prefix_of(
                #[trigger] BOOTSTRAP@.skip(i),
            ),
        exists|i: int|
            0 <= i <= BOOTSTRAP@.len() && "status: result.status,"@.is_prefix_of(
                #[trigger] BOOTSTRAP@.skip(i),
            ),
        exists|i: int|
            0 <= i <= BOOTSTRAP@.len() && "statusText: result.statusText,"@.is_prefix_of(
                #[trigger] BOOTSTRAP@.skip(i),
            ),
        exists|i: int|
            0 <= i <= BOOTSTRAP@.len() && "headers: result.headers,"@.is_prefix_of(
                #[trigger] BOOTSTRAP@.skip(i),
            ),
{
    reveal_strlit(r#"
(() => {
  const invoke = window.__TAURI_INTERNALS__ && window.__TAURI_INTERNALS__.invoke;
  if (!invoke) return;

  window.__SCALAR_NATIVE__ = true;

  const toBytes = async (body) => {
    if (body == null) return null;
    if (typeof body === 'string') return Array.from(new TextEncoder().encode(body));
    if (body instanceof ArrayBuffer) return Array.from(new Uint8Array(body));
    if (ArrayBuffer.isView(body)) {
      return Array.from(new Uint8Array(body.buffer, body.byteOffset, body.byteLength));
    }
    if (body instanceof Blob) return Array.from(new Uint8Array(await body.arrayBuffer()));
    return Array.from(new TextEncoder().encode(String(body)));
  };

  window.__SCALAR_FETCH__ = async (url, init = {}) => {
    const headers = {};
    new Headers(init.headers || {}).forEach((value, key) => {
      headers[key] = value;
    });

    let result;
    try {
      result = await invoke('api_fetch', {
        request: {
          url,
          method: (init.method || 'GET').toUpperCase(),
          headers,
          body: await toBytes(init.body),
        },
      });
    } catch (reason) {
      // Tauri rejects a failed command with a plain string. The SDK keeps the message only when
      // the cause is an Error, so without this every transport failure reads as a generic
      // "network request failed" and the real reason, such as a timeout or a refused
      // connection, is thrown away. TypeError is what fetch itself throws when a request never
      // completes, so the web app handles this exactly as it handles a browser failure.
      throw new TypeError(typeof reason === 'string' ? reason : 'Network request failed');
    }

    const bytes = new Uint8Array(result.body);
    // 204 and 304 must be constructed with a null body or the Response constructor throws.
    const empty = bytes.byteLength === 0 || result.status === 204 || result.status === 304;
    return new Response(empty ? null : bytes, {
      status: result.status,
      statusText: result.statusText,
      headers: result.headers,
    });
  };
})();
"#);
    reveal_strlit("window.__SCALAR_NATIVE__ = true;");
    assert("window.__SCALAR_NATIVE__ = true;"@ =~= BOOTSTRAP@.skip(118).subrange(0, 32));
    reveal_strlit("window.__SCALAR_FETCH__ = async (url, init = {}) => {");
    assert("window.__SCALAR_FETCH__ = async (url, init = {}) => {"@ =~= BOOTSTRAP@.skip(678).subrange(0, 53));
    reveal_strlit("result = await invoke('api_fetch', {");
    assert("result = await invoke('api_fetch', {"@ =~= BOOTSTRAP@.skip(887).subrange(0, 36));
    reveal_strlit("method: (init.method || 'GET').toUpperCase(),");
    assert("method: (init.method || 'GET').toUpperCase(),"@ =~= BOOTSTRAP@.skip(968).subrange(0, 45));
    reveal_strlit("body: await toBytes(init.body),");
    assert("body: await toBytes(init.body),"@ =~= BOOTSTRAP@.skip(1043).subrange(0, 31));
    reveal_strlit("throw new TypeError(typeof reason === 'string' ? reason : 'Network request failed');");
    assert("throw new TypeError(typeof reason === 'string' ? reason : 'Network request failed');"@ =~= BOOTSTRAP@.skip(1584).subrange(0, 84));
    reveal_strlit("const bytes = new Uint8Array(result.body);");
    assert("const bytes = new Uint8Array(result.body);"@ =~= BOOTSTRAP@.skip(1680).subrange(0, 42));
    reveal_strlit("result.status === 204 || result.status === 304;");
    assert("result.status === 204 || result.status === 304;"@ =~= BOOTSTRAP@.skip(1859).subrange(0, 47));
    reveal_strlit("return new Response(empty ? null : bytes, {");
    assert("return new Response(empty ? null : bytes, {"@ =~= BOOTSTRAP@.skip(1911).subrange(0, 43));
    reveal_strlit("status: result.status,");
    assert("status: result.status,"@ =~= BOOTSTRAP@.skip(1961).subrange(0, 22));
    reveal_strlit("statusText: result.statusText,");
    assert("statusText: result.statusText,"@ =~= BOOTSTRAP@.skip(1990).subrange(0, 30));
    reveal_strlit("headers: result.headers,");
    assert("headers: result.headers,"@ =~= BOOTSTRAP@.skip(2027).subrange(0, 24));
}

/// The chrome script names the platform that it was made for, gives the interface the buttons of its
/// window and a way to ask whether that is maximized, and reserves the height of the title bar.
pub proof fn chrome_hands_over_the_window(platform: Platform)
    ensures
        exists|i: int|
            0 <= i <= chrome(platform).len() && ("window.__SCALAR_PLATFORM__ = '"@ + platform.name()
                + "';"@).is_prefix_of(#[trigger] chrome(platform).skip(i)),
        exists|i: int|
            0 <= i <= chrome(platform).len() && "minimize: () => invoke('window_minimize'),"@.is_prefix_of(
                #[trigger] chrome(platform).skip(i),
            ),
        exists|i: int|
            0 <= i <= chrome(platform).len() && "toggleMaximize: () => invoke('window_toggle_maximize'),"@.is_prefix_of(
                #[trigger] chrome(platform).skip(i),
            ),
        exists|i: int|
            0 <= i <= chrome(platform).len() && "close: () => invoke('window_close'),"@.is_prefix_of(
                #[trigger] chrome(platform).skip(i),
            ),
        exists|i: int|
            0 <= i <= chrome(platform).len() && "isMaximized: () => invoke('window_is_maximized'),"@.is_prefix_of(
                #[trigger] chrome(platform).skip(i),
            ),
        exists|i: int|
            0 <= i <= chrome(platform).len() && "setProperty('--sc-titlebar', '36px');"@.is_prefix_of(
                #[trigger] chrome(platform).skip(i),
            ),
{
    reveal_strlit(r#"
(() => {
  const invoke = window.__TAURI_INTERNALS__ && window.__TAURI_INTERNALS__.invoke;
  if (!invoke) return;

  window.__SCALAR_PLATFORM__ = '"#);
    reveal_strlit(r#"';
  window.__SCALAR_WINDOW__ = {
    minimize: () => invoke('window_minimize'),
    toggleMaximize: () => invoke('window_toggle_maximize'),
    close: () => invoke('window_close'),
    isMaximized: () => invoke('window_is_maximized'),
  };

  const reserve = () => {
    document.documentElement.style.setProperty('--sc-titlebar', '"#);
    reveal_strlit("36px");
    reveal_strlit(r#"');
  };
  if (document.documentElement) reserve();
  else document.addEventListener('DOMContentLoaded', reserve, { once: true });
})();
"#);
    let script = chrome(platform);
    let name = platform.name();
    let width: int = name.len() as int;
    reveal_strlit("window.__SCALAR_PLATFORM__ = '");
    reveal_strlit("';");
    assert("window.__SCALAR_PLATFORM__ = '"@ + name + "';"@ =~= script.skip(118).subrange(
        0,
        32 + width,
    ));
    reveal_strlit("minimize: () => invoke('window_minimize'),");
    assert("minimize: () => invoke('window_minimize'),"@ =~= script.skip(186 + width).subrange(0, 42));
    reveal_strlit("toggleMaximize: () => invoke('window_toggle_maximize'),");
    assert("toggleMaximize: () => invoke('window_toggle_maximize'),"@ =~= script.skip(233 + width).subrange(0, 55));
    reveal_strlit("close: () => invoke('window_close'),");
    assert("close: () => invoke('window_close'),"@ =~= script.skip(293 + width).subrange(0, 36));
    reveal_strlit("isMaximized: () => invoke('window_is_maximized'),");
    assert("isMaximized: () => invoke('window_is_maximized'),"@ =~= script.skip(334 + width).subrange(0, 49));
    reveal_strlit("setProperty('--sc-titlebar', '36px');");
    assert("setProperty('--sc-titlebar', '36px');"@ =~= script.skip(451 + width).subrange(0, 37));
}

} // verus!
