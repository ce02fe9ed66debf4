//! Step frames: one captured moment of a browser workflow.
//!
//! A frame pairs a screenshot with the DOM state and the action being
//! performed.  Capturing—screenshots, file writes, page queries—is I/O and
//! lives outside the library; this module holds the data model, the capture
//! options, content hashing, and the pure decisions a capture makes.

use vstd::prelude::*;
use vstd::string::*;

use crate::json::{jv, obj_lookup, JsonV, JsonValue};
use crate::strutil::{spec_dec, usize_to_string};

verus! {

/// A complete step frame: one captured moment of a workflow.
#[derive(Debug)]
pub struct StepFrame {
    /// Sequential frame identifier, starting from 0.
    pub frame_id: usize,
    /// Timestamp of the capture, RFC 3339.
    pub timestamp: String,
    /// Milliseconds since the workflow started.
    pub elapsed_ms: u64,
    /// The visual state.
    pub screenshot: ScreenshotInfo,
    /// The DOM state.
    pub dom: DomInfo,
    /// The visual DOM snapshot, when captured.
    pub visual_dom: Option<VisualDomInfo>,
    /// The action being performed, when known.
    pub action: Option<ActionInfo>,
    /// Natural-language transcript, when known.
    pub transcript: Option<TranscriptInfo>,
}

/// Where and how a screenshot was stored.
#[derive(Debug)]
pub struct ScreenshotInfo {
    /// Path of the screenshot file.
    pub path: String,
    /// Image format name.
    pub format: String,
    /// File size in bytes.
    pub size_bytes: usize,
    /// Image dimensions, when known.
    pub dimensions: Option<Dimensions>,
    /// SHA-256 hash for deduplication, when computed.
    pub hash: Option<String>,
}

/// Width and height in pixels.
#[derive(Debug, Clone, Copy, PartialEq, Eq, Structural)]
pub struct Dimensions {
    pub width: u32,
    pub height: u32,
}

/// The DOM state of a frame.
#[derive(Debug)]
pub struct DomInfo {
    /// Page URL at capture time.
    pub url: String,
    /// Page title at capture time.
    pub title: String,
    /// Path of the saved HTML, when saved.
    pub html_path: Option<String>,
    /// SHA-256 hash of the HTML, when computed.
    pub html_hash: Option<String>,
    /// Interactive elements of the page, when collected.
    pub interactive_elements: Option<Vec<InteractiveElement>>,
}

/// One interactive element found on the page.
#[derive(Debug)]
pub struct InteractiveElement {
    pub selector: String,
    pub tag: String,
    pub text: String,
    pub is_visible: bool,
    pub is_enabled: bool,
}

/// Where and how a visual DOM snapshot was stored.
#[derive(Debug)]
pub struct VisualDomInfo {
    /// Path of the snapshot file.
    pub path: String,
    /// File size in bytes.
    pub size_bytes: usize,
    /// Number of DOM nodes in the snapshot.
    pub node_count: usize,
    /// SHA-256 hash for deduplication, when computed.
    pub hash: Option<String>,
}

/// Sparse per-node booleans of a DOM snapshot: the indexes that are true.
#[derive(Debug)]
pub struct RareBooleanData {
    pub index: Vec<i64>,
}

/// Sparse per-node integers of a DOM snapshot.
#[derive(Debug)]
pub struct RareIntegerData {
    pub index: Vec<i64>,
    pub value: Vec<i64>,
}

/// Sparse per-node string-table references of a DOM snapshot.
#[derive(Debug)]
pub struct RareStringData {
    pub index: Vec<i64>,
    pub value: Vec<i64>,
}

/// The node tree of a DOM snapshot, as parallel arrays of string-table and
/// node indexes.
#[derive(Debug)]
pub struct NodeTreeSnapshot {
    pub parent_index: Option<Vec<i64>>,
    pub node_type: Option<Vec<i64>>,
    pub node_name: Option<Vec<i64>>,
    pub node_value: Option<Vec<i64>>,
    pub backend_node_id: Option<Vec<i64>>,
    pub attributes: Option<Vec<Vec<i64>>>,
    pub text_value: Option<RareStringData>,
    pub input_value: Option<RareStringData>,
    pub current_source_url: Option<RareStringData>,
    pub origin_url: Option<RareStringData>,
    pub is_clickable: Option<RareBooleanData>,
}

/// The action a frame documents.
#[derive(Debug)]
pub struct ActionInfo {
    /// Action type, such as `navigate` or `click`.
    pub action_type: String,
    /// High-level description of intent.
    pub intent: String,
    /// Selector or description of the target, when known.
    pub target: Option<String>,
}

/// Natural-language account of a step.
#[derive(Debug)]
pub struct TranscriptInfo {
    /// What is happening.
    pub action_description: String,
    /// Why this action was chosen.
    pub reasoning: Option<String>,
    /// What should happen next.
    pub expected_outcome: Option<String>,
}

/// Image format of a captured screenshot.
#[derive(Debug, Clone, Copy, PartialEq, Eq, Structural)]
pub enum ScreenshotFormat {
    Png,
    Jpeg,
}

/// The file extension of a screenshot format.
pub open spec fn spec_format_extension(f: ScreenshotFormat) -> Seq<char> {
    match f {
        ScreenshotFormat::Png => "png"@,
        ScreenshotFormat::Jpeg => "jpg"@,
    }
}

/// File extension of a screenshot format.
pub fn format_extension(format: ScreenshotFormat) -> (r: &'static str)
    ensures
        r@ == spec_format_extension(format),
{
    match format {
        ScreenshotFormat::Png => "png",
        ScreenshotFormat::Jpeg => "jpg",
    }
}

/// The format name of a screenshot format.
pub open spec fn spec_format_string(f: ScreenshotFormat) -> Seq<char> {
    match f {
        ScreenshotFormat::Png => "png"@,
        ScreenshotFormat::Jpeg => "jpeg"@,
    }
}

/// Format name of a screenshot format, as recorded in a frame.
pub fn format_string(format: ScreenshotFormat) -> (r: String)
    ensures
        r@ == spec_format_string(format),
{
    match format {
        ScreenshotFormat::Png => String::from_str("png"),
        ScreenshotFormat::Jpeg => String::from_str("jpeg"),
    }
}

// ===== capture options =====

/// What a step-frame capture should collect and where it should store it.
#[derive(Debug)]
pub struct CaptureOptions {
    /// Directory for screenshots.
    pub screenshot_dir: String,
    /// Directory for saved HTML, when saving it.
    pub dom_dir: Option<String>,
    /// Directory for visual DOM snapshots, when capturing them.
    pub visual_dom_dir: Option<String>,
    /// Screenshot format.
    pub screenshot_format: ScreenshotFormat,
    /// Whether to save the page HTML.
    pub save_html: bool,
    /// Whether to capture a visual DOM snapshot.
    pub capture_visual_dom: bool,
    /// Computed styles to include in the snapshot; empty means all.
    pub visual_dom_computed_styles: Vec<String>,
    /// Whether the snapshot includes DOM rectangles.
    pub visual_dom_include_dom_rects: bool,
    /// Whether the snapshot includes paint order.
    pub visual_dom_include_paint_order: bool,
    /// Whether the snapshot embeds images as base64.
    pub visual_dom_include_images: bool,
    /// Whether to compute SHA-256 hashes of captured content.
    pub compute_hashes: bool,
    /// Whether to collect interactive elements.
    pub extract_interactive_elements: bool,
}

/// Spec views of a list of style names.
pub open spec fn styles_view(s: Seq<String>) -> Seq<Seq<char>> {
    crate::script::strs_view(s)
}

/// The balanced set of computed styles.
pub open spec fn spec_balanced_styles() -> Seq<Seq<char>> {
    seq![
        "display"@,
        "position"@,
        "top"@,
        "left"@,
        "right"@,
        "bottom"@,
        "width"@,
        "height"@,
        "z-index"@,
        "visibility"@,
        "opacity"@,
        "font-size"@,
        "font-weight"@,
        "font-family"@,
        "color"@,
        "padding"@,
        "margin"@,
        "background-color"@,
        "background-image"@,
    ]
}

/// The minimal set of computed styles.
pub open spec fn spec_minimal_styles() -> Seq<Seq<char>> {
    seq!["display"@, "position"@, "visibility"@]
}

fn push_style(v: &mut Vec<String>, s: &str)
    ensures
        styles_view(final(v)@) == styles_view(old(v)@).push(s@),
{
    v.push(String::from_str(s));
    proof {
        assert(styles_view(v@) =~= styles_view(old(v)@).push(s@));
    }
}

impl CaptureOptions {
    /// A balanced set of computed styles: enough to understand layout and
    /// visibility without capturing every property.
    pub fn balanced_computed_styles() -> (r: Vec<String>)
        ensures
            styles_view(r@) == spec_balanced_styles(),
    {
        let mut v: Vec<String> = Vec::new();
        push_style(&mut v, "display");
        push_style(&mut v, "position");
        push_style(&mut v, "top");
        push_style(&mut v, "left");
        push_style(&mut v, "right");
        push_style(&mut v, "bottom");
        push_style(&mut v, "width");
        push_style(&mut v, "height");
        push_style(&mut v, "z-index");
        push_style(&mut v, "visibility");
        push_style(&mut v, "opacity");
        push_style(&mut v, "font-size");
        push_style(&mut v, "font-weight");
        push_style(&mut v, "font-family");
        push_style(&mut v, "color");
        push_style(&mut v, "padding");
        push_style(&mut v, "margin");
        push_style(&mut v, "background-color");
        push_style(&mut v, "background-image");
        proof {
            assert(styles_view(v@) =~= spec_balanced_styles());
        }
        v
    }

    /// The minimal set of computed styles: just positioning and visibility.
    pub fn minimal_computed_styles() -> (r: Vec<String>)
        ensures
            styles_view(r@) == spec_minimal_styles(),
    {
        let mut v: Vec<String> = Vec::new();
        push_style(&mut v, "display");
        push_style(&mut v, "position");
        push_style(&mut v, "visibility");
        proof {
            assert(styles_view(v@) =~= spec_minimal_styles());
        }
        v
    }

    /// Every computed style: the empty list asks the capture for all.
    pub fn all_computed_styles() -> (r: Vec<String>)
        ensures
            r@.len() == 0,
    {
        Vec::new()
    }
}

impl Default for CaptureOptions {
    /// The default capture: PNG screenshots under `./screenshots`, HTML
    /// under `./dom`, hashes on, visual DOM prepared but off.
    fn default() -> (r: Self)
        ensures
            r.screenshot_dir@ == "./screenshots"@,
            r.dom_dir matches Some(d) && d@ == "./dom"@,
            r.visual_dom_dir matches Some(d) && d@ == "./visualdom"@,
            r.screenshot_format is Png,
            r.save_html,
            !r.capture_visual_dom,
            styles_view(r.visual_dom_computed_styles@) == spec_balanced_styles(),
            r.visual_dom_include_dom_rects,
            r.visual_dom_include_paint_order,
            r.visual_dom_include_images,
            r.compute_hashes,
            !r.extract_interactive_elements,
    {
        CaptureOptions {
            screenshot_dir: String::from_str("./screenshots"),
            dom_dir: Some(String::from_str("./dom")),
            visual_dom_dir: Some(String::from_str("./visualdom")),
            screenshot_format: ScreenshotFormat::Png,
            save_html: true,
            capture_visual_dom: false,
            visual_dom_computed_styles: Self::balanced_computed_styles(),
            visual_dom_include_dom_rects: true,
            visual_dom_include_paint_order: true,
            visual_dom_include_images: true,
            compute_hashes: true,
            extract_interactive_elements: false,
        }
    }
}

// ===== content hashing =====

/// The SHA-256 digest of a byte sequence; said by the sha2 crate.
pub uninterp spec fn spec_sha256(data: Seq<u8>) -> Seq<u8>;

/// Relies on sha2::Sha256 through Digest::digest: the digest depends on the
/// bytes alone and is 32 bytes long.
#[verifier::external_body]
fn sha256_digest(data: &[u8]) -> (r: Vec<u8>)
    ensures
        r@ == spec_sha256(data@),
        r@.len() == 32,
{
    let digest = <sha2::Sha256 as sha2::Digest>::digest(data);
    digest.to_vec()
}

/// The character of one hexadecimal digit.
pub open spec fn spec_hex_digit(d: nat) -> char {
    if d < 10 {
        spec_dec(d)[0]
    } else if d == 10 {
        'a'
    } else if d == 11 {
        'b'
    } else if d == 12 {
        'c'
    } else if d == 13 {
        'd'
    } else if d == 14 {
        'e'
    } else {
        'f'
    }
}

/// Lowercase hexadecimal rendering of the first `k` bytes, two digits each.
pub open spec fn spec_hex(data: Seq<u8>, k: nat) -> Seq<char>
    decreases k,
{
    if k == 0 {
        Seq::empty()
    } else {
        spec_hex(data, (k - 1) as nat) + seq![
            spec_hex_digit((data[k - 1] / 16) as nat),
            spec_hex_digit((data[k - 1] % 16) as nat),
        ]
    }
}

fn hex_digit_str(d: u8) -> (r: &'static str)
    requires
        d < 16,
    ensures
        r@ =~= seq![spec_hex_digit(d as nat)],
{
    proof {
        reveal_strlit("0");
        reveal_strlit("1");
        reveal_strlit("2");
        reveal_strlit("3");
        reveal_strlit("4");
        reveal_strlit("5");
        reveal_strlit("6");
        reveal_strlit("7");
        reveal_strlit("8");
        reveal_strlit("9");
        reveal_strlit("a");
        reveal_strlit("b");
        reveal_strlit("c");
        reveal_strlit("d");
        reveal_strlit("e");
        reveal_strlit("f");
    }
    match d {
        0 => "0",
        1 => "1",
        2 => "2",
        3 => "3",
        4 => "4",
        5 => "5",
        6 => "6",
        7 => "7",
        8 => "8",
        9 => "9",
        10 => "a",
        11 => "b",
        12 => "c",
        13 => "d",
        14 => "e",
        _ => "f",
    }
}

/// Render bytes as lowercase hexadecimal, two digits per byte.
fn to_hex(data: &Vec<u8>) -> (r: String)
    ensures
        r@ == spec_hex(data@, data@.len() as nat),
        r@.len() == 2 * data@.len(),
{
    let mut out = String::new();
    let mut i: usize = 0;
    while i < data.len()
        invariant
            i <= data@.len(),
            out@ == spec_hex(data@, i as nat),
            out@.len() == 2 * i,
        decreases data@.len() - i,
    {
        let b = data[i];
        out.append(hex_digit_str(b / 16));
        out.append(hex_digit_str(b % 16));
        proof {
            assert(out@ =~= spec_hex(data@, (i + 1) as nat));
        }
        i = i + 1;
    }
    out
}

/// SHA-256 hash of bytes, rendered as 64 lowercase hexadecimal digits.
pub fn compute_bytes_hash(data: &[u8]) -> (r: String)
    ensures
        r@ == spec_hex(spec_sha256(data@), 32),
        r@.len() == 64,
{
    let digest = sha256_digest(data);
    to_hex(&digest)
}

/// SHA-256 hash of a text, rendered as 64 lowercase hexadecimal digits.
pub fn compute_string_hash(content: &str) -> (r: String)
    ensures
        r@ == spec_hex(spec_sha256(content.spec_bytes()), 32),
        r@.len() == 64,
{
    compute_bytes_hash(content.as_bytes())
}

// ===== pure decisions of a capture =====

/// Zero-padded four-digit decimal rendering of a frame number.
pub open spec fn spec_pad4(n: nat) -> Seq<char> {
    if n < 10 {
        seq!['0', '0', '0'] + spec_dec(n)
    } else if n < 100 {
        seq!['0', '0'] + spec_dec(n)
    } else if n < 1000 {
        seq!['0'] + spec_dec(n)
    } else {
        spec_dec(n)
    }
}

/// The file name a frame's artifact is stored under.
pub open spec fn spec_frame_filename(n: nat, ext: Seq<char>) -> Seq<char> {
    "frame_"@ + spec_pad4(n) + "."@ + ext
}

/// Build the file name of a frame artifact: `frame_`, the zero-padded frame
/// number, and the extension.
pub fn frame_filename(frame_id: usize, extension: &str) -> (r: String)
    ensures
        r@ == spec_frame_filename(frame_id as nat, extension@),
{
    let mut s = String::from_str("frame_");
    if frame_id < 10 {
        s.append("000");
    } else if frame_id < 100 {
        s.append("00");
    } else if frame_id < 1000 {
        s.append("0");
    }
    s.append(usize_to_string(frame_id).as_str());
    s.append(".");
    s.append(extension);
    proof {
        reveal_strlit("0");
        reveal_strlit("00");
        reveal_strlit("000");
        assert(s@ =~= spec_frame_filename(frame_id as nat, extension@));
    }
    s
}

/// The transcript a frame records: the user's instruction verbatim when one
/// was given, otherwise the intent of the action, otherwise nothing.
pub fn build_transcript(user_instruction: Option<String>, action: &Option<ActionInfo>) -> (r:
    Option<TranscriptInfo>)
    ensures
        user_instruction matches Some(s) ==> r matches Some(t) && t.action_description@ == s@
            && t.reasoning is None && t.expected_outcome is None,
        (user_instruction is None && *action is Some) ==> (r is Some
            && r->0.action_description@ == action->0.intent@ && r->0.reasoning is None
            && r->0.expected_outcome is None),
        user_instruction is None && *action is None ==> r is None,
{
    match user_instruction {
        Some(instruction) => Some(
            TranscriptInfo {
                action_description: instruction,
                reasoning: None,
                expected_outcome: None,
            },
        ),
        None => match action {
            Some(a) => Some(
                TranscriptInfo {
                    action_description: a.intent.clone(),
                    reasoning: None,
                    expected_outcome: None,
                },
            ),
            None => None,
        },
    }
}

/// The node count a visual DOM snapshot reports: the length of the
/// `nodeIndex` array under `documents[0].nodes`, zero when absent.
pub open spec fn spec_node_count(v: JsonV) -> int {
    match v {
        JsonV::Obj(entries) => match obj_lookup(entries, "documents"@) {
            Some(dv) => match dv {
                JsonV::Arr(docs) => if docs.len() > 0 {
                    match docs[0] {
                        JsonV::Obj(de) => match obj_lookup(de, "nodes"@) {
                            Some(nv) => match nv {
                                JsonV::Obj(ne) => match obj_lookup(ne, "nodeIndex"@) {
                                    Some(iv) => match iv {
                                        JsonV::Arr(idx) => idx.len() as int,
                                        _ => 0,
                                    },
                                    None => 0,
                                },
                                _ => 0,
                            },
                            None => 0,
                        },
                        _ => 0,
                    }
                } else {
                    0
                },
                _ => 0,
            },
            None => 0,
        },
        _ => 0,
    }
}

/// Count the nodes a visual DOM snapshot holds.
pub fn visual_dom_node_count(v: &JsonValue) -> (r: usize)
    ensures
        r as int == spec_node_count(jv(*v)),
{
    match v {
        JsonValue::Obj(entries) => match crate::json::obj_get(entries, "documents") {
            Some(dv) => match dv {
                JsonValue::Arr(docs) => {
                    if docs.len() > 0 {
                        proof {
                            assert(crate::json::jv_list(docs@)[0] == jv(docs@[0]));
                        }
                        match &docs[0] {
                            JsonValue::Obj(de) => match crate::json::obj_get(de, "nodes") {
                                Some(nv) => match nv {
                                    JsonValue::Obj(ne) => match crate::json::obj_get(
                                        ne,
                                        "nodeIndex",
                                    ) {
                                        Some(iv) => match iv {
                                            JsonValue::Arr(idx) => idx.len(),
                                            _ => 0,
                                        },
                                        None => 0,
                                    },
                                    _ => 0,
                                },
                                None => 0,
                            },
                            _ => 0,
                        }
                    } else {
                        0
                    }
                },
                _ => 0,
            },
            None => 0,
        },
        _ => 0,
    }
}

} // verus!
