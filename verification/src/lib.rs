//! Declarative browser-automation scripts over the Chrome DevTools Protocol:
//! a data model for CDP scripts, a schema-driven validator that reports every
//! problem it finds before a browser is touched, and the sequential decision
//! core of the script interpreter.

pub mod chat;
pub mod codec;
pub mod executor;
pub mod generator;
pub mod json;
pub mod prompt;
pub mod script;
pub mod session;
pub mod step_frame;
pub mod strutil;
pub mod validation;

pub use chat::{ChatMessage, ChatUI, UserFeedback};
pub use codec::{parse_json, script_from_json, script_to_json, JsonParseError};
pub use executor::{apply_outcomes, handler_for, method_has_handler, HandlerKind, StepOutcome};
pub use generator::CdpScriptGenerator;
pub use json::JsonValue;
pub use prompt::{generate_cdp_script_prompt, validate_generated_script};
pub use script::{CdpCommand, CdpScript, CommandResult, CommandStatus, ExecutionReport};
pub use session::{normalize_url, ConnectionMode};
pub use step_frame::{
    compute_bytes_hash, compute_string_hash, format_extension, format_string, ActionInfo, CaptureOptions, Dimensions,
    DomInfo, InteractiveElement, NodeTreeSnapshot, RareBooleanData, RareIntegerData,
    RareStringData, ScreenshotFormat, ScreenshotInfo, StepFrame, TranscriptInfo, VisualDomInfo,
};
pub use validation::{
    CdpValidator, CommandSchema, ErrorLocation, ParamType, ValidationError, ValidationErrorType,
    ValidationResult,
};
