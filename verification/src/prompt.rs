//! The prompt handed to the external AI tool, and the acceptance rules its
//! replies must meet.
//!
//! The prompt lists every command the generated scripts may use, with the
//! exact JSON shape expected back.  A generated reply is accepted only when
//! it parses as a script, passes structural validation, and names no method
//! outside the generator's command list.

use vstd::prelude::*;

use crate::codec::{parse_json, script_from_json, spec_parse_json, spec_script_from_json};
use crate::script::{spec_structural_error, CdpScript, CommandV, ScriptV};
use crate::strutil::str_eq;

verus! {

/// Opening of the prompt, up to the user's request.
pub const PROMPT_HEAD: &'static str = r#"You are a browser automation expert generating Chrome DevTools Protocol (CDP) scripts.

USER REQUEST: "#;

/// Middle of the prompt, between the user's request and the timestamp.
pub const PROMPT_MID: &'static str = r#"

Generate a JSON script that accomplishes the request using CDP commands.

AVAILABLE CDP COMMANDS:

1. Page.navigate - Navigate to URL
   {"method": "Page.navigate", "params": {"url": "https://example.com"}}

2. Page.captureScreenshot - Take screenshot (saves automatically if save_as provided)
   {"method": "Page.captureScreenshot", "params": {"format": "png", "captureBeyondViewport": true}, "save_as": "screenshot.png"}

3. Page.reload - Refresh page
   {"method": "Page.reload", "params": {"ignoreCache": true}}

4. Page.goBack - Browser back
   {"method": "Page.goBack", "params": {"entryId": -1}}

5. Page.goForward - Browser forward
   {"method": "Page.goForward", "params": {"entryId": 1}}

6. Runtime.evaluate - Execute JavaScript (saves result if save_as provided)
   {"method": "Runtime.evaluate", "params": {"expression": "document.title", "returnByValue": true}, "save_as": "result.json"}

7. Input.insertText - Type text
   {"method": "Input.insertText", "params": {"text": "Hello World"}}

8. Input.dispatchMouseEvent - Click/mouse action
   {"method": "Input.dispatchMouseEvent", "params": {"type": "mousePressed", "x": 100, "y": 200, "button": "left", "clickCount": 1}}

9. Input.dispatchKeyEvent - Press keys
   {"method": "Input.dispatchKeyEvent", "params": {"type": "keyDown", "key": "Enter"}}

10. Network.getCookies - Get all cookies
    {"method": "Network.getCookies", "params": {}}

11. Network.setCookie - Set a cookie
    {"method": "Network.setCookie", "params": {"name": "session", "value": "abc123", "domain": "example.com"}}

12. Network.deleteCookies - Delete cookies
    {"method": "Network.deleteCookies", "params": {"name": "session"}}

13. Emulation.setGeolocationOverride - Set location
    {"method": "Emulation.setGeolocationOverride", "params": {"latitude": 37.7749, "longitude": -122.4194, "accuracy": 100}}

14. Emulation.setDeviceMetricsOverride - Mobile emulation
    {"method": "Emulation.setDeviceMetricsOverride", "params": {"width": 375, "height": 667, "deviceScaleFactor": 2, "mobile": true}}

IMPORTANT RULES:

1. ONLY use commands from the list above
2. Always navigate to a page first before interacting with it
3. For clicking elements, use Runtime.evaluate with JavaScript like: document.querySelector('button').click()
4. For extracting data, use Runtime.evaluate with JavaScript
5. For screenshots, always set "captureBeyondViewport": true for full page
6. Use save_as field when you want to save screenshots or extracted data
7. Sequence commands logically (navigate before interact, wait for page load)
8. Use descriptive names and descriptions

OUTPUT FORMAT (JSON only, no markdown):

{
  "name": "descriptive-name-with-hyphens",
  "description": "Clear description of what this automation does",
  "created": ""#;

/// Rest of the prompt, after the timestamp.
pub const PROMPT_TAIL: &'static str = r#"",
  "author": "Agent",
  "tags": ["tag1", "tag2"],
  "cdp_commands": [
    {
      "method": "Page.navigate",
      "params": {"url": "..."},
      "description": "Navigate to the target page"
    },
    {
      "method": "Runtime.evaluate",
      "params": {"expression": "...", "returnByValue": true},
      "save_as": "optional-output.json",
      "description": "Extract or manipulate data"
    }
  ]
}

EXAMPLES:

Example 1 - Screenshot a page:
{
  "name": "screenshot-example-com",
  "description": "Take a screenshot of example.com",
  "created": "2025-10-09T00:00:00Z",
  "author": "Agent",
  "tags": ["screenshot"],
  "cdp_commands": [
    {
      "method": "Page.navigate",
      "params": {"url": "https://example.com"},
      "description": "Navigate to example.com"
    },
    {
      "method": "Page.captureScreenshot",
      "params": {"format": "png", "captureBeyondViewport": true},
      "save_as": "example.png",
      "description": "Capture full page screenshot"
    }
  ]
}

Example 2 - Extract data:
{
  "name": "extract-product-info",
  "description": "Extract product information from a page",
  "created": "2025-10-09T00:00:00Z",
  "author": "Agent",
  "tags": ["data-extraction"],
  "cdp_commands": [
    {
      "method": "Page.navigate",
      "params": {"url": "https://shop.example.com/product/123"},
      "description": "Navigate to product page"
    },
    {
      "method": "Runtime.evaluate",
      "params": {
        "expression": "JSON.stringify({title: document.querySelector('h1').textContent, price: document.querySelector('.price').textContent})",
        "returnByValue": true
      },
      "save_as": "product-info.json",
      "description": "Extract product title and price"
    }
  ]
}

Example 3 - Click and interact:
{
  "name": "login-automation",
  "description": "Automate login to a website",
  "created": "2025-10-09T00:00:00Z",
  "author": "Agent",
  "tags": ["login", "automation"],
  "cdp_commands": [
    {
      "method": "Page.navigate",
      "params": {"url": "https://example.com/login"},
      "description": "Navigate to login page"
    },
    {
      "method": "Runtime.evaluate",
      "params": {
        "expression": "document.querySelector('input[name=email]').value = 'user@example.com'; document.querySelector('input[name=password]').value = 'password123'",
        "returnByValue": false
      },
      "description": "Fill login form"
    },
    {
      "method": "Runtime.evaluate",
      "params": {
        "expression": "document.querySelector('button[type=submit]').click()",
        "returnByValue": false
      },
      "description": "Click submit button"
    }
  ]
}

Now generate the CDP script for the user's request. Output ONLY valid JSON, no markdown code blocks."#;

/// The whole prompt for a request and a timestamp.
pub open spec fn spec_prompt(request: Seq<char>, timestamp: Seq<char>) -> Seq<char> {
    PROMPT_HEAD@ + request + PROMPT_MID@ + timestamp + PROMPT_TAIL@
}

/// Build the prompt for a request, dating it with the given timestamp.
pub fn prompt_with_timestamp(user_request: &str, timestamp: &str) -> (r: String)
    ensures
        r@ == spec_prompt(user_request@, timestamp@),
{
    let mut p = String::from_str(PROMPT_HEAD);
    p.append(user_request);
    p.append(PROMPT_MID);
    p.append(timestamp);
    p.append(PROMPT_TAIL);
    proof {
        assert(p@ =~= spec_prompt(user_request@, timestamp@));
    }
    p
}

/// Relies on chrono's Utc::now and DateTime::to_rfc3339: the current moment
/// rendered as an RFC 3339 timestamp; the value depends on the clock.
#[verifier::external_body]
fn now_rfc3339() -> (r: String) {
    chrono::Utc::now().to_rfc3339()
}

/// Build the prompt for a request, dated with the current time.
pub fn generate_cdp_script_prompt(user_request: &str) -> (r: String)
    ensures
        exists|ts: Seq<char>| r@ == spec_prompt(user_request@, ts),
{
    let now = now_rfc3339();
    let r = prompt_with_timestamp(user_request, now.as_str());
    proof {
        assert(r@ == spec_prompt(user_request@, now@));
    }
    r
}

// ===== accepting a generated script =====

/// The methods a generated script may use.  This list belongs to the
/// generator and is maintained separately from the validator's registry.
pub open spec fn spec_generated_methods() -> Seq<Seq<char>> {
    seq![
        "Page.navigate"@,
        "Page.captureScreenshot"@,
        "Page.reload"@,
        "Page.goBack"@,
        "Page.goForward"@,
        "Runtime.evaluate"@,
        "Input.insertText"@,
        "Input.dispatchMouseEvent"@,
        "Input.dispatchKeyEvent"@,
        "Network.getCookies"@,
        "Network.setCookie"@,
        "Network.deleteCookies"@,
        "Emulation.setGeolocationOverride"@,
        "Emulation.setDeviceMetricsOverride"@,
    ]
}

fn generated_method_known(m: &str) -> (r: bool)
    ensures
        r == spec_generated_methods().contains(m@),
{
    let known = str_eq(m, "Page.navigate") || str_eq(m, "Page.captureScreenshot") || str_eq(
        m,
        "Page.reload",
    ) || str_eq(m, "Page.goBack") || str_eq(m, "Page.goForward") || str_eq(m, "Runtime.evaluate")
        || str_eq(m, "Input.insertText") || str_eq(m, "Input.dispatchMouseEvent") || str_eq(
        m,
        "Input.dispatchKeyEvent",
    ) || str_eq(m, "Network.getCookies") || str_eq(m, "Network.setCookie") || str_eq(
        m,
        "Network.deleteCookies",
    ) || str_eq(m, "Emulation.setGeolocationOverride") || str_eq(
        m,
        "Emulation.setDeviceMetricsOverride",
    );
    proof {
        if known {
            assert(spec_generated_methods().contains(m@));
        } else {
            assert(!spec_generated_methods().contains(m@)) by {
                if spec_generated_methods().contains(m@) {
                    let j = choose|j: int|
                        0 <= j < spec_generated_methods().len() && spec_generated_methods()[j]
                            == m@;
                }
            }
        }
    }
    known
}

/// The first method at or after `k` outside the generator's list, if any.
pub open spec fn first_unknown_method(cmds: Seq<CommandV>, k: nat) -> Option<Seq<char>>
    decreases cmds.len() - k,
{
    if k >= cmds.len() {
        None
    } else if !spec_generated_methods().contains(cmds[k as int].method) {
        Some(cmds[k as int].method)
    } else {
        first_unknown_method(cmds, k + 1)
    }
}

/// Rejection message for a method outside the generator's list.
pub open spec fn spec_unknown_generated_msg(m: Seq<char>) -> Seq<char> {
    "Unknown CDP command: "@ + m + ". Only the listed commands are supported."@
}

/// What accepting a generated reply yields: the script, or the message of
/// the first gate it fails -- the JSON parse, the script decode, structural
/// validation, or the generator's method list.
pub open spec fn spec_validate_generated(text: Seq<char>) -> Result<ScriptV, Seq<char>> {
    match spec_parse_json(text) {
        Err(pe) => Err("Invalid JSON: "@ + pe.message),
        Ok(doc) => match spec_script_from_json(doc) {
            Err(m) => Err("Invalid JSON: "@ + m),
            Ok(s) => match spec_structural_error(s) {
                Some(m) => Err("Script validation failed: "@ + m),
                None => match first_unknown_method(s.commands, 0) {
                    Some(m) => Err(spec_unknown_generated_msg(m)),
                    None => Ok(s),
                },
            },
        },
    }
}

/// Accept a generated reply only if it parses as a script, passes the
/// structural check, and uses only the generator's command list.
#[verifier::loop_isolation(false)]
pub fn validate_generated_script(json: &str) -> (r: Result<CdpScript, String>)
    ensures
        r matches Ok(s) ==> spec_validate_generated(json@) == Ok::<_, Seq<char>>(s@),
        r matches Err(m) ==> spec_validate_generated(json@) matches Err(em) && m@ == em,
{
    let doc = match parse_json(json) {
        Ok(doc) => doc,
        Err(e) => {
            let mut msg = String::from_str("Invalid JSON: ");
            msg.append(e.message.as_str());
            proof {
                assert(msg@ =~= "Invalid JSON: "@ + e@.message);
            }
            return Err(msg);
        },
    };
    let script = match script_from_json(&doc) {
        Ok(s) => s,
        Err(m) => {
            let mut msg = String::from_str("Invalid JSON: ");
            msg.append(m.as_str());
            proof {
                assert(msg@ =~= "Invalid JSON: "@ + m@);
            }
            return Err(msg);
        },
    };
    match script.validate() {
        Ok(()) => {
            proof {
                crate::script::lemma_first_cmd_error_none(script@.commands, 0);
                assert(spec_structural_error(script@) is None);
            }
        },
        Err(m) => {
            let mut msg = String::from_str("Script validation failed: ");
            msg.append(m.as_str());
            proof {
                assert(msg@ =~= "Script validation failed: "@ + m@);
                assert(spec_structural_error(script@) == Some(m@));
                assert(spec_validate_generated(json@) matches Err(em) && em == msg@);
            }
            return Err(msg);
        },
    }
    let n = script.cdp_commands.len();
    let mut i: usize = 0;
    while i < n
        invariant
            i <= n,
            n == script.cdp_commands@.len(),
            first_unknown_method(script@.commands, 0) == first_unknown_method(
                script@.commands,
                i as nat,
            ),
            forall|j: int| 0 <= j < i ==> spec_generated_methods().contains(
                #[trigger] script@.commands[j].method,
            ),
        decreases n - i,
    {
        if !generated_method_known(script.cdp_commands[i].method.as_str()) {
            let mut msg = String::from_str("Unknown CDP command: ");
            msg.append(script.cdp_commands[i].method.as_str());
            msg.append(". Only the listed commands are supported.");
            proof {
                assert(msg@ =~= spec_unknown_generated_msg(script@.commands[i as int].method));
            }
            return Err(msg);
        }
        i = i + 1;
    }
    Ok(script)
}

} // verus!
