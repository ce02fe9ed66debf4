//! Chat overlay state.
//!
//! Tracks whether the in-page chat overlay is enabled and owns the JavaScript
//! snippet that builds it.  Injecting the snippet into a live page is I/O and
//! lives with the session layer; this module holds the pure state and data.

use vstd::prelude::*;

verus! {

/// JavaScript injected into a page to build the chat overlay.
pub const CHAT_UI_SCRIPT: &'static str = r#"(() => {
  if (document.getElementById('robert-chat-container')) { return; }
  const container = document.createElement('div');
  container.id = 'robert-chat-container';
  container.style.cssText = 'position:fixed;top:0;right:0;width:320px;height:100%;z-index:2147483647;background:#1e1e2e;color:#cdd6f4;font-family:sans-serif;display:flex;flex-direction:column;';
  const header = document.createElement('div');
  header.id = 'robert-chat-header';
  header.textContent = 'Robert';
  header.style.cssText = 'padding:8px;font-weight:bold;cursor:pointer;background:#313244;';
  const messages = document.createElement('div');
  messages.id = 'robert-chat-messages';
  messages.style.cssText = 'flex:1;overflow-y:auto;padding:8px;';
  container.appendChild(header);
  container.appendChild(messages);
  document.body.appendChild(container);
  window.__ROBERT_CHAT_MESSAGES__ = window.__ROBERT_CHAT_MESSAGES__ || [];
  window.__ROBERT_UNPROCESSED_MESSAGES__ = window.__ROBERT_UNPROCESSED_MESSAGES__ || [];
  window.__ROBERT_FEEDBACK__ = window.__ROBERT_FEEDBACK__ || [];
  window.__ROBERT_CHAT_API__ = {
    sendMessage: (text) => {
      const entry = { text: text, sender: 'agent', timestamp: Date.now() };
      window.__ROBERT_CHAT_MESSAGES__.push(entry);
      const node = document.createElement('div');
      node.textContent = text;
      node.style.cssText = 'margin:4px 0;padding:6px;border-radius:6px;background:#45475a;';
      messages.appendChild(node);
    },
    clearMessages: () => {
      window.__ROBERT_CHAT_MESSAGES__ = [];
      messages.textContent = '';
    },
    collapse: () => { container.style.height = '32px'; },
    expand: () => { container.style.height = '100%'; }
  };
  header.addEventListener('click', () => {
    if (container.style.height === '32px') {
      window.__ROBERT_CHAT_API__.expand();
    } else {
      window.__ROBERT_CHAT_API__.collapse();
    }
  });
})();"#;

/// Chat overlay manager: remembers whether injection is enabled.
pub struct ChatUI {
    enabled: bool,
}

impl ChatUI {
    /// Spec view of the enabled flag.
    pub closed spec fn spec_enabled(&self) -> bool {
        self.enabled
    }

    /// Create a manager with the overlay enabled.
    pub fn new() -> (r: Self)
        ensures
            r.spec_enabled(),
    {
        Self { enabled: true }
    }

    /// Create a manager with the given enabled state.
    pub fn with_enabled(enabled: bool) -> (r: Self)
        ensures
            r.spec_enabled() == enabled,
    {
        Self { enabled }
    }

    /// Report whether injection is enabled.
    pub fn is_enabled(&self) -> (r: bool)
        ensures
            r == self.spec_enabled(),
    {
        self.enabled
    }

    /// Enable injection.
    pub fn enable(&mut self)
        ensures
            final(self).spec_enabled(),
    {
        self.enabled = true;
    }

    /// Disable injection.
    pub fn disable(&mut self)
        ensures
            !final(self).spec_enabled(),
    {
        self.enabled = false;
    }

    /// The JavaScript that builds the overlay.
    pub fn get_injection_script(&self) -> (r: &'static str)
        ensures
            r@ == CHAT_UI_SCRIPT@,
    {
        CHAT_UI_SCRIPT
    }
}

impl Default for ChatUI {
    /// The default manager has the overlay enabled.
    fn default() -> (r: Self)
        ensures
            r.spec_enabled(),
    {
        Self::new()
    }
}

/// One message shown in the chat overlay.
#[derive(Debug, Clone)]
pub struct ChatMessage {
    pub text: String,
    pub sender: String,
    pub timestamp: u64,
}

/// Feedback a user submitted about an agent action.
#[derive(Debug, Clone)]
pub struct UserFeedback {
    pub action_id: String,
    pub positive: bool,
    pub comment: Option<String>,
    pub agent_name: String,
    pub original_request: String,
    pub error_description: Option<String>,
    pub timestamp: u64,
}

} // verus!
