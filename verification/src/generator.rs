//! Script generation front end.
//!
//! A generator asks an external AI command-line tool for a script; spawning
//! that process is I/O and lives outside the library.  What is verified here
//! is the configuration value itself and the cleaning of the tool's reply:
//! trimming whitespace and removing a Markdown code fence when one wraps the
//! JSON.

use vstd::prelude::*;

verus! {

/// A character the standard library's trim removes: the Unicode
/// White_Space set.
pub open spec fn spec_is_whitespace(c: char) -> bool {
    ||| c == '\u{9}'
    ||| c == '\u{A}'
    ||| c == '\u{B}'
    ||| c == '\u{C}'
    ||| c == '\u{D}'
    ||| c == ' '
    ||| c == '\u{85}'
    ||| c == '\u{A0}'
    ||| c == '\u{1680}'
    ||| c == '\u{2000}'
    ||| c == '\u{2001}'
    ||| c == '\u{2002}'
    ||| c == '\u{2003}'
    ||| c == '\u{2004}'
    ||| c == '\u{2005}'
    ||| c == '\u{2006}'
    ||| c == '\u{2007}'
    ||| c == '\u{2008}'
    ||| c == '\u{2009}'
    ||| c == '\u{200A}'
    ||| c == '\u{2028}'
    ||| c == '\u{2029}'
    ||| c == '\u{202F}'
    ||| c == '\u{205F}'
    ||| c == '\u{3000}'
}

fn is_whitespace_char(c: char) -> (r: bool)
    ensures
        r == spec_is_whitespace(c),
{
    c == '\u{9}' || c == '\u{A}' || c == '\u{B}' || c == '\u{C}' || c == '\u{D}' || c == ' '
        || c == '\u{85}' || c == '\u{A0}' || c == '\u{1680}' || c == '\u{2000}' || c == '\u{2001}'
        || c == '\u{2002}' || c == '\u{2003}' || c == '\u{2004}' || c == '\u{2005}'
        || c == '\u{2006}' || c == '\u{2007}' || c == '\u{2008}' || c == '\u{2009}'
        || c == '\u{200A}' || c == '\u{2028}' || c == '\u{2029}' || c == '\u{202F}'
        || c == '\u{205F}' || c == '\u{3000}'
}

/// The text without leading whitespace.
pub open spec fn spec_trim_start(s: Seq<char>) -> Seq<char>
    decreases s.len(),
{
    if s.len() == 0 {
        s
    } else if spec_is_whitespace(s[0]) {
        spec_trim_start(s.drop_first())
    } else {
        s
    }
}

/// The text without trailing whitespace.
pub open spec fn spec_trim_end(s: Seq<char>) -> Seq<char>
    decreases s.len(),
{
    if s.len() == 0 {
        s
    } else if spec_is_whitespace(s.last()) {
        spec_trim_end(s.drop_last())
    } else {
        s
    }
}

/// The text without leading and trailing whitespace.
pub open spec fn spec_trim(s: Seq<char>) -> Seq<char> {
    spec_trim_end(spec_trim_start(s))
}

/// Dropping a whitespace prefix reaches the suffix that starts at `lo`.
proof fn lemma_trim_start_at(s: Seq<char>, lo: int)
    requires
        0 <= lo <= s.len(),
        forall|j: int| 0 <= j < lo ==> spec_is_whitespace(#[trigger] s[j]),
        lo < s.len() ==> !spec_is_whitespace(s[lo]),
    ensures
        spec_trim_start(s) == s.subrange(lo, s.len() as int),
    decreases lo,
{
    if lo == 0 {
        assert(s.subrange(0, s.len() as int) =~= s);
    } else {
        assert(s.drop_first() =~= s.subrange(1, s.len() as int));
        lemma_trim_start_at(s.drop_first(), lo - 1);
        assert(s.drop_first().subrange(lo - 1, s.drop_first().len() as int) =~= s.subrange(
            lo,
            s.len() as int,
        ));
    }
}

/// Dropping a whitespace suffix reaches the prefix that ends at `hi`.
proof fn lemma_trim_end_at(s: Seq<char>, hi: int)
    requires
        0 <= hi <= s.len(),
        forall|j: int| hi <= j < s.len() ==> spec_is_whitespace(#[trigger] s[j]),
        hi > 0 ==> !spec_is_whitespace(s[hi - 1]),
    ensures
        spec_trim_end(s) == s.subrange(0, hi),
    decreases s.len() - hi,
{
    if hi == s.len() {
        assert(s.subrange(0, s.len() as int) =~= s);
    } else {
        assert(s.drop_last() =~= s.subrange(0, s.len() - 1));
        lemma_trim_end_at(s.drop_last(), hi);
        assert(s.drop_last().subrange(0, hi) =~= s.subrange(0, hi));
    }
}

/// Remove leading and trailing whitespace, as the standard library's trim
/// does.
pub fn trim_str<'a>(s: &'a str) -> (r: &'a str)
    ensures
        r@ == spec_trim(s@),
{
    let len: usize = s.unicode_len();
    let mut lo: usize = 0;
    while lo < len && is_whitespace_char(s.get_char(lo))
        invariant
            len == s@.len(),
            lo <= len,
            forall|j: int| 0 <= j < lo ==> spec_is_whitespace(#[trigger] s@[j]),
        decreases len - lo,
    {
        lo = lo + 1;
    }
    proof {
        lemma_trim_start_at(s@, lo as int);
    }
    let mut hi: usize = len;
    while hi > lo && is_whitespace_char(s.get_char(hi - 1))
        invariant
            len == s@.len(),
            lo <= hi <= len,
            forall|j: int| hi <= j < len ==> spec_is_whitespace(#[trigger] s@[j]),
        decreases hi,
    {
        hi = hi - 1;
    }
    let r = s.substring_char(lo, hi);
    proof {
        let t = spec_trim_start(s@);
        assert(t == s@.subrange(lo as int, len as int));
        if hi > lo {
            assert(!spec_is_whitespace(s@[hi - 1]));
        }
        assert(forall|j: int|
            hi - lo <= j < t.len() ==> spec_is_whitespace(#[trigger] t[j]));
        lemma_trim_end_at(t, hi - lo);
        assert(t.subrange(0, hi - lo) =~= s@.subrange(lo as int, hi as int));
    }
    r
}

/// What cleaning a reply yields: the trimmed text; when it is wrapped in a
/// Markdown code fence (with or without the `json` tag), the fence is
/// removed and the inside trimmed again.
pub open spec fn spec_clean_response(response: Seq<char>) -> Seq<char> {
    let t = spec_trim(response);
    if t.len() >= 7 && t.subrange(0, 7) == "```json"@ {
        let rest = t.subrange(7, t.len() as int);
        if rest.len() >= 3 && rest.subrange(rest.len() - 3, rest.len() as int) == "```"@ {
            spec_trim(rest.subrange(0, rest.len() - 3))
        } else {
            t
        }
    } else if t.len() >= 3 && t.subrange(0, 3) == "```"@ {
        let rest = t.subrange(3, t.len() as int);
        if rest.len() >= 3 && rest.subrange(rest.len() - 3, rest.len() as int) == "```"@ {
            spec_trim(rest.subrange(0, rest.len() - 3))
        } else {
            t
        }
    } else {
        t
    }
}

/// Generates scripts by prompting an external AI command-line tool.  The
/// process call itself lives with the I/O layer; the configuration and the
/// reply cleaning are here.
#[derive(Debug)]
pub struct CdpScriptGenerator {
    cli_path: String,
    model: Option<String>,
}

impl CdpScriptGenerator {
    /// The configured path of the external tool.
    pub closed spec fn spec_cli_path(&self) -> Seq<char> {
        self.cli_path@
    }

    /// The configured model, if any.
    pub closed spec fn spec_model(&self) -> Option<Seq<char>> {
        crate::script::opt_view(self.model)
    }

    /// A generator that invokes the tool by its plain name.
    pub fn new() -> (r: Self)
        ensures
            r.spec_cli_path() == "agent"@,
            r.spec_model() is None,
    {
        Self { cli_path: String::from_str("agent"), model: None }
    }

    /// Use a custom path for the external tool.
    pub fn with_cli_path(self, path: String) -> (r: Self)
        ensures
            r.spec_cli_path() == path@,
            r.spec_model() == self.spec_model(),
    {
        Self { cli_path: path, model: self.model }
    }

    /// Pick the model the tool should use.
    pub fn with_model(self, model: String) -> (r: Self)
        ensures
            r.spec_cli_path() == self.spec_cli_path(),
            r.spec_model() == Some(model@),
    {
        Self { cli_path: self.cli_path, model: Some(model) }
    }

    /// Read the configured tool path.
    pub fn cli_path(&self) -> (r: &str)
        ensures
            r@ == self.spec_cli_path(),
    {
        self.cli_path.as_str()
    }

    /// Read the configured model.
    pub fn model(&self) -> (r: &Option<String>)
        ensures
            crate::script::opt_view(*r) == self.spec_model(),
    {
        &self.model
    }

    /// Clean the tool's reply: trim it and unwrap a Markdown code fence.
    pub fn clean_response(&self, response: &str) -> (r: String)
        ensures
            r@ == spec_clean_response(response@),
    {
        let trimmed = trim_str(response);
        let tl: usize = trimmed.unicode_len();
        if tl >= 7 && crate::strutil::str_eq(trimmed.substring_char(0, 7), "```json") {
            let rest = trimmed.substring_char(7, tl);
            let rl: usize = rest.unicode_len();
            if rl >= 3 && crate::strutil::str_eq(rest.substring_char(rl - 3, rl), "```") {
                let inside = rest.substring_char(0, rl - 3);
                String::from_str(trim_str(inside))
            } else {
                String::from_str(trimmed)
            }
        } else if tl >= 3 && crate::strutil::str_eq(trimmed.substring_char(0, 3), "```") {
            let rest = trimmed.substring_char(3, tl);
            let rl: usize = rest.unicode_len();
            if rl >= 3 && crate::strutil::str_eq(rest.substring_char(rl - 3, rl), "```") {
                let inside = rest.substring_char(0, rl - 3);
                String::from_str(trim_str(inside))
            } else {
                String::from_str(trimmed)
            }
        } else {
            String::from_str(trimmed)
        }
    }
}

impl Default for CdpScriptGenerator {
    /// The default generator invokes the tool by its plain name.
    fn default() -> (r: Self)
        ensures
            r.spec_cli_path() == "agent"@,
            r.spec_model() is None,
    {
        Self::new()
    }
}

} // verus!
