//! Session configuration: how a browser is reached.
//!
//! Opening the connection itself is I/O and lives outside the library; the
//! choice of connection is plain data that callers pass around.

use vstd::prelude::*;

use crate::strutil::{seq_starts_with, str_starts_with};

verus! {

/// How to reach a browser.
#[derive(Debug)]
pub enum ConnectionMode {
    /// Launch a browser process.
    Sandboxed {
        /// Explicit browser executable, when not auto-detected.
        chrome_path: Option<String>,
        /// Pass the no-sandbox flag, for containers.
        no_sandbox: bool,
        /// Run without a visible window.
        headless: bool,
    },
    /// Attach to an existing browser on this debug port.
    DebugPort(u16),
}

/// Whether a URL already names a scheme the session accepts as given:
/// `http`, `https`, `file`, `about` or `data`.
pub open spec fn spec_url_has_scheme(url: Seq<char>) -> bool {
    ||| seq_starts_with(url, "http://"@)
    ||| seq_starts_with(url, "https://"@)
    ||| seq_starts_with(url, "file://"@)
    ||| seq_starts_with(url, "about:"@)
    ||| seq_starts_with(url, "data:"@)
}

/// What normalization yields: a URL without a recognized scheme gets
/// `https://` in front; any other passes through unchanged.
pub open spec fn spec_normalize_url(url: Seq<char>) -> Seq<char> {
    if spec_url_has_scheme(url) {
        url
    } else {
        "https://"@ + url
    }
}

/// Normalize a URL before navigation: prefix `https://` when no recognized
/// scheme is given.
pub fn normalize_url(url: &str) -> (r: String)
    ensures
        r@ == spec_normalize_url(url@),
{
    if str_starts_with(url, "http://") || str_starts_with(url, "https://") || str_starts_with(
        url,
        "file://",
    ) || str_starts_with(url, "about:") || str_starts_with(url, "data:") {
        String::from_str(url)
    } else {
        let mut r = String::from_str("https://");
        r.append(url);
        r
    }
}

} // verus!
