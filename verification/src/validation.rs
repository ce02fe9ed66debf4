//! Schema-driven script validation.
//!
//! The validator holds a fixed registry of known CDP commands, each with its
//! required and optional parameter names and expected value types.  It checks
//! a whole script and reports every problem it finds in one pass: errors
//! block execution, warnings do not.

use vstd::prelude::*;

use crate::json::{jv, jv_entries, obj_has_key, JsonV, JsonValue};
use crate::script::{opt_view, strs_view, CdpCommand, CdpScript, CommandV, ScriptV};
use crate::strutil::{spec_dec, string_eq_str, usize_to_string};

verus! {

// ===== error model =====

/// Category of a validation error.
#[derive(Debug, Clone, Copy, PartialEq, Eq, Structural)]
pub enum ValidationErrorType {
    /// The document is not valid JSON, or does not have a script's shape.
    JsonSyntax,
    /// A required field is missing or empty.
    MissingField,
    /// A field holds an ill-formed value.
    InvalidValue,
    /// The command method is not in the registry.
    UnknownCommand,
    /// A parameter is ill formed.
    InvalidParameter,
    /// A required parameter is absent.
    MissingParameter,
    /// A value has the wrong JSON structure.
    InvalidStructure,
    /// A parameter's JSON type disagrees with its schema.
    TypeMismatch,
}

/// Where an error was found.
#[derive(Debug)]
pub struct ErrorLocation {
    /// Command index, 0-based, when the error is in a specific command.
    pub command_index: Option<usize>,
    /// Field path, such as `cdp_commands[0].params.url`.
    pub field_path: String,
    /// Line in the JSON text, when known.
    pub line: Option<usize>,
    /// Column in the JSON text, when known.
    pub column: Option<usize>,
}

/// Mathematical view of a location.
pub struct LocV {
    pub command_index: Option<int>,
    pub field_path: Seq<char>,
    pub line: Option<int>,
    pub column: Option<int>,
}

/// Spec view of an optional machine integer.
pub open spec fn opt_int(o: Option<usize>) -> Option<int> {
    match o {
        Some(n) => Some(n as int),
        None => None,
    }
}

impl View for ErrorLocation {
    type V = LocV;

    open spec fn view(&self) -> LocV {
        LocV {
            command_index: opt_int(self.command_index),
            field_path: self.field_path@,
            line: opt_int(self.line),
            column: opt_int(self.column),
        }
    }
}

/// One validation finding: category, message, location, and a suggestion.
#[derive(Debug)]
pub struct ValidationError {
    /// Error category.
    pub error_type: ValidationErrorType,
    /// Human-readable error message.
    pub message: String,
    /// Where the error was found.
    pub location: ErrorLocation,
    /// Suggestion for fixing the error.
    pub suggestion: Option<String>,
}

/// Mathematical view of a finding.
pub struct ErrorV {
    pub error_type: ValidationErrorType,
    pub message: Seq<char>,
    pub location: LocV,
    pub suggestion: Option<Seq<char>>,
}

impl View for ValidationError {
    type V = ErrorV;

    open spec fn view(&self) -> ErrorV {
        ErrorV {
            error_type: self.error_type,
            message: self.message@,
            location: self.location@,
            suggestion: opt_view(self.suggestion),
        }
    }
}

/// Spec views of a sequence of findings.
pub open spec fn errs_view(s: Seq<ValidationError>) -> Seq<ErrorV> {
    Seq::new(
        s.len(),
        |i: int|
            if 0 <= i < s.len() {
                s[i]@
            } else {
                ErrorV {
                    error_type: ValidationErrorType::JsonSyntax,
                    message: Seq::empty(),
                    location: LocV {
                        command_index: None,
                        field_path: Seq::empty(),
                        line: None,
                        column: None,
                    },
                    suggestion: None,
                }
            },
    )
}

/// Everything validation found: the verdict, all errors, all warnings.
#[derive(Debug)]
pub struct ValidationResult {
    /// True exactly when no error was recorded.
    pub is_valid: bool,
    /// Every error found, in document order.
    pub errors: Vec<ValidationError>,
    /// Non-blocking findings.
    pub warnings: Vec<String>,
}

/// Mathematical view of a validation result.
pub struct VResultV {
    pub is_valid: bool,
    pub errors: Seq<ErrorV>,
    pub warnings: Seq<Seq<char>>,
}

impl View for ValidationResult {
    type V = VResultV;

    open spec fn view(&self) -> VResultV {
        VResultV {
            is_valid: self.is_valid,
            errors: errs_view(self.errors@),
            warnings: strs_view(self.warnings@),
        }
    }
}

impl ValidationResult {
    /// An empty, valid result.
    pub fn success() -> (r: Self)
        ensures
            r@.is_valid,
            r@.errors.len() == 0,
            r@.warnings.len() == 0,
    {
        Self { is_valid: true, errors: Vec::new(), warnings: Vec::new() }
    }

    /// A result carrying the given errors.  As everywhere in validation,
    /// the verdict is valid exactly when the error list is empty.
    pub fn failure(errors: Vec<ValidationError>) -> (r: Self)
        ensures
            r@.is_valid == (errs_view(errors@).len() == 0),
            r@.errors == errs_view(errors@),
            r@.warnings.len() == 0,
    {
        let is_valid = errors.len() == 0;
        Self { is_valid, errors, warnings: Vec::new() }
    }

    /// Record an error; the result is no longer valid.
    pub fn add_error(&mut self, error: ValidationError)
        ensures
            final(self)@.errors == old(self)@.errors.push(error@),
            final(self)@.warnings == old(self)@.warnings,
            !final(self)@.is_valid,
    {
        self.errors.push(error);
        self.is_valid = false;
        proof {
            assert(final(self)@.errors =~= old(self)@.errors.push(error@));
            assert(final(self)@.warnings =~= old(self)@.warnings);
        }
    }

    /// Record a warning; the verdict does not change.
    pub fn add_warning(&mut self, warning: String)
        ensures
            final(self)@.warnings == old(self)@.warnings.push(warning@),
            final(self)@.errors == old(self)@.errors,
            final(self)@.is_valid == old(self)@.is_valid,
    {
        self.warnings.push(warning);
        proof {
            assert(final(self)@.warnings =~= old(self)@.warnings.push(warning@));
            assert(final(self)@.errors =~= old(self)@.errors);
        }
    }
}

// ===== parameter schemas =====

/// Expected JSON type of a parameter.
#[derive(Debug, Clone, Copy, PartialEq, Eq, Structural)]
pub enum ParamType {
    String,
    Number,
    Boolean,
    Object,
    Array,
}

/// The JSON type tag of a value; `Null` matches every schema type and so has
/// no tag.
pub open spec fn spec_param_type_of(v: JsonV) -> Option<ParamType> {
    match v {
        JsonV::Null => None,
        JsonV::Bool(_) => Some(ParamType::Boolean),
        JsonV::Num(_) => Some(ParamType::Number),
        JsonV::Str(_) => Some(ParamType::String),
        JsonV::Arr(_) => Some(ParamType::Array),
        JsonV::Obj(_) => Some(ParamType::Object),
    }
}

/// The JSON type tag of a value.
pub fn param_type_of(v: &JsonValue) -> (r: Option<ParamType>)
    ensures
        r == spec_param_type_of(jv(*v)),
{
    match v {
        JsonValue::Null => None,
        JsonValue::Bool(_) => Some(ParamType::Boolean),
        JsonValue::Num(_) => Some(ParamType::Number),
        JsonValue::Str(_) => Some(ParamType::String),
        JsonValue::Arr(_) => Some(ParamType::Array),
        JsonValue::Obj(_) => Some(ParamType::Object),
    }
}

/// The schema's name for a JSON type, as it appears in messages.
pub open spec fn spec_type_name(t: ParamType) -> Seq<char> {
    match t {
        ParamType::String => "String"@,
        ParamType::Number => "Number"@,
        ParamType::Boolean => "Boolean"@,
        ParamType::Object => "Object"@,
        ParamType::Array => "Array"@,
    }
}

/// The schema's name for a JSON type.
pub fn type_name_str(t: ParamType) -> (r: &'static str)
    ensures
        r@ == spec_type_name(t),
{
    match t {
        ParamType::String => "String",
        ParamType::Number => "Number",
        ParamType::Boolean => "Boolean",
        ParamType::Object => "Object",
        ParamType::Array => "Array",
    }
}

/// Parameter contract of one CDP command.
#[derive(Debug)]
pub struct CommandSchema {
    /// Parameters that must be present.
    pub required_params: Vec<String>,
    /// Parameters that may be present.
    pub optional_params: Vec<String>,
    /// Expected type of each declared parameter.
    pub param_types: Vec<(String, ParamType)>,
}

/// Mathematical view of a schema.
pub struct SchemaV {
    pub required_params: Seq<Seq<char>>,
    pub optional_params: Seq<Seq<char>>,
    pub param_types: Seq<(Seq<char>, ParamType)>,
}

/// Spec views of a type table.
pub open spec fn tys_view(s: Seq<(String, ParamType)>) -> Seq<(Seq<char>, ParamType)> {
    Seq::new(
        s.len(),
        |i: int|
            if 0 <= i < s.len() {
                (s[i].0@, s[i].1)
            } else {
                (Seq::empty(), ParamType::String)
            },
    )
}

impl View for CommandSchema {
    type V = SchemaV;

    open spec fn view(&self) -> SchemaV {
        SchemaV {
            required_params: strs_view(self.required_params@),
            optional_params: strs_view(self.optional_params@),
            param_types: tys_view(self.param_types@),
        }
    }
}

/// First value under `key` in an association list.
pub open spec fn assoc_lookup<T>(entries: Seq<(Seq<char>, T)>, key: Seq<char>) -> Option<T>
    decreases entries.len(),
{
    if entries.len() == 0 {
        None
    } else if entries[0].0 == key {
        Some(entries[0].1)
    } else {
        assoc_lookup(entries.drop_first(), key)
    }
}

/// An association lookup that ends at index `i` returns the value there.
pub proof fn lemma_assoc_lookup_found<T>(entries: Seq<(Seq<char>, T)>, key: Seq<char>, i: int)
    requires
        0 <= i < entries.len(),
        entries[i].0 == key,
        forall|j: int| 0 <= j < i ==> entries[j].0 != key,
    ensures
        assoc_lookup(entries, key) == Some(entries[i].1),
    decreases i,
{
    if i > 0 {
        lemma_assoc_lookup_found(entries.drop_first(), key, i - 1);
    }
}

/// An association lookup over entries without the key returns nothing.
pub proof fn lemma_assoc_lookup_absent<T>(entries: Seq<(Seq<char>, T)>, key: Seq<char>)
    requires
        forall|j: int| 0 <= j < entries.len() ==> entries[j].0 != key,
    ensures
        assoc_lookup(entries, key) is None,
    decreases entries.len(),
{
    if entries.len() > 0 {
        lemma_assoc_lookup_absent(entries.drop_first(), key);
    }
}

// ===== the registry, as specification =====

/// Every method the validator knows, in registry order.
pub open spec fn spec_known_commands() -> Seq<Seq<char>> {
    seq![
        "Page.navigate"@,
        "Page.captureScreenshot"@,
        "Page.reload"@,
        "Page.goBack"@,
        "Page.goForward"@,
        "Runtime.evaluate"@,
        "Input.insertText"@,
        "Input.dispatchMouseEvent"@,
        "Input.dispatchKeyEvent"@,
        "Network.getCookies"@,
        "Network.setCookie"@,
        "Network.deleteCookies"@,
        "Emulation.setGeolocationOverride"@,
        "Emulation.setDeviceMetricsOverride"@,
        "Emulation.clearGeolocationOverride"@,
    ]
}

/// Schema of `Page.navigate`.
pub open spec fn spec_schema_navigate() -> SchemaV {
    SchemaV {
        required_params: seq!["url"@],
        optional_params: seq!["referrer"@, "transitionType"@, "frameId"@],
        param_types: seq![
            ("url"@, ParamType::String),
            ("referrer"@, ParamType::String),
            ("transitionType"@, ParamType::String),
            ("frameId"@, ParamType::String),
        ],
    }
}

/// Schema of `Page.captureScreenshot`.
pub open spec fn spec_schema_screenshot() -> SchemaV {
    SchemaV {
        required_params: Seq::empty(),
        optional_params: seq!["format"@, "quality"@, "clip"@, "captureBeyondViewport"@],
        param_types: seq![
            ("format"@, ParamType::String),
            ("quality"@, ParamType::Number),
            ("clip"@, ParamType::Object),
            ("captureBeyondViewport"@, ParamType::Boolean),
        ],
    }
}

/// Schema of `Runtime.evaluate`.
pub open spec fn spec_schema_evaluate() -> SchemaV {
    SchemaV {
        required_params: seq!["expression"@],
        optional_params: seq!["returnByValue"@, "awaitPromise"@, "userGesture"@],
        param_types: seq![
            ("expression"@, ParamType::String),
            ("returnByValue"@, ParamType::Boolean),
            ("awaitPromise"@, ParamType::Boolean),
            ("userGesture"@, ParamType::Boolean),
        ],
    }
}

/// Schema of `Input.insertText`.
pub open spec fn spec_schema_insert_text() -> SchemaV {
    SchemaV {
        required_params: seq!["text"@],
        optional_params: Seq::empty(),
        param_types: seq![("text"@, ParamType::String)],
    }
}

/// Schema of `Input.dispatchMouseEvent`.
pub open spec fn spec_schema_mouse_event() -> SchemaV {
    SchemaV {
        required_params: seq!["type"@, "x"@, "y"@],
        optional_params: seq!["button"@, "clickCount"@, "modifiers"@],
        param_types: seq![
            ("type"@, ParamType::String),
            ("x"@, ParamType::Number),
            ("y"@, ParamType::Number),
            ("button"@, ParamType::String),
            ("clickCount"@, ParamType::Number),
            ("modifiers"@, ParamType::Number),
        ],
    }
}

/// Schema of `Input.dispatchKeyEvent`.
pub open spec fn spec_schema_key_event() -> SchemaV {
    SchemaV {
        required_params: seq!["type"@],
        optional_params: seq!["key"@, "code"@, "text"@, "modifiers"@],
        param_types: seq![
            ("type"@, ParamType::String),
            ("key"@, ParamType::String),
            ("code"@, ParamType::String),
            ("text"@, ParamType::String),
            ("modifiers"@, ParamType::Number),
        ],
    }
}

/// Schema of `Network.setCookie`.
pub open spec fn spec_schema_set_cookie() -> SchemaV {
    SchemaV {
        required_params: seq!["name"@, "value"@],
        optional_params: seq!["url"@, "domain"@, "path"@, "secure"@, "httpOnly"@, "expires"@],
        param_types: seq![
            ("name"@, ParamType::String),
            ("value"@, ParamType::String),
            ("url"@, ParamType::String),
            ("domain"@, ParamType::String),
            ("path"@, ParamType::String),
            ("secure"@, ParamType::Boolean),
            ("httpOnly"@, ParamType::Boolean),
            ("expires"@, ParamType::Number),
        ],
    }
}

/// Schema of `Network.deleteCookies`.
pub open spec fn spec_schema_delete_cookies() -> SchemaV {
    SchemaV {
        required_params: seq!["name"@],
        optional_params: seq!["url"@, "domain"@, "path"@],
        param_types: seq![
            ("name"@, ParamType::String),
            ("url"@, ParamType::String),
            ("domain"@, ParamType::String),
            ("path"@, ParamType::String),
        ],
    }
}

/// Schema of `Emulation.setGeolocationOverride`.
pub open spec fn spec_schema_geolocation() -> SchemaV {
    SchemaV {
        required_params: Seq::empty(),
        optional_params: seq!["latitude"@, "longitude"@, "accuracy"@],
        param_types: seq![
            ("latitude"@, ParamType::Number),
            ("longitude"@, ParamType::Number),
            ("accuracy"@, ParamType::Number),
        ],
    }
}

/// Schema of `Emulation.setDeviceMetricsOverride`.
pub open spec fn spec_schema_device_metrics() -> SchemaV {
    SchemaV {
        required_params: seq!["width"@, "height"@, "deviceScaleFactor"@, "mobile"@],
        optional_params: seq!["screenWidth"@, "screenHeight"@, "screenOrientation"@],
        param_types: seq![
            ("width"@, ParamType::Number),
            ("height"@, ParamType::Number),
            ("deviceScaleFactor"@, ParamType::Number),
            ("mobile"@, ParamType::Boolean),
            ("screenWidth"@, ParamType::Number),
            ("screenHeight"@, ParamType::Number),
            ("screenOrientation"@, ParamType::Object),
        ],
    }
}

/// The registry: each method with a parameter schema, in registry order.
/// Methods without an entry validate with no parameter checks.
pub open spec fn spec_registry() -> Seq<(Seq<char>, SchemaV)> {
    seq![
        ("Page.navigate"@, spec_schema_navigate()),
        ("Page.captureScreenshot"@, spec_schema_screenshot()),
        ("Runtime.evaluate"@, spec_schema_evaluate()),
        ("Input.insertText"@, spec_schema_insert_text()),
        ("Input.dispatchMouseEvent"@, spec_schema_mouse_event()),
        ("Input.dispatchKeyEvent"@, spec_schema_key_event()),
        ("Network.setCookie"@, spec_schema_set_cookie()),
        ("Network.deleteCookies"@, spec_schema_delete_cookies()),
        ("Emulation.setGeolocationOverride"@, spec_schema_geolocation()),
        ("Emulation.setDeviceMetricsOverride"@, spec_schema_device_metrics()),
    ]
}

/// The schema the registry holds for a method, if any.
pub open spec fn spec_schema_lookup(m: Seq<char>) -> Option<SchemaV> {
    assoc_lookup(spec_registry(), m)
}

// ===== messages and findings, as specification =====

/// `Command N` prefix of per-command messages, with the 1-based step number.
pub open spec fn msg_command(i: nat) -> Seq<char> {
    "Command "@ + spec_dec(i + 1)
}

/// `Command N (Domain.action)` prefix of parameter messages.
pub open spec fn msg_command_method(i: nat, m: Seq<char>) -> Seq<char> {
    msg_command(i) + " ("@ + m + ")"@
}

/// `cdp_commands[i]` field prefix of per-command locations.
pub open spec fn spec_field_prefix(i: nat) -> Seq<char> {
    "cdp_commands["@ + spec_dec(i) + "]"@
}

/// A location inside command `i`.
pub open spec fn loc_in_command(i: nat, path: Seq<char>) -> LocV {
    LocV { command_index: Some(i as int), field_path: path, line: None, column: None }
}

/// A location outside any command.
pub open spec fn loc_top(path: Seq<char>) -> LocV {
    LocV { command_index: None, field_path: path, line: None, column: None }
}

/// Finding: the script name is empty.
pub open spec fn err_name_missing() -> ErrorV {
    ErrorV {
        error_type: ValidationErrorType::MissingField,
        message: "Script name is required and cannot be empty"@,
        location: loc_top("name"@),
        suggestion: Some("Add a descriptive name for your script"@),
    }
}

/// Finding: the command list is empty.
pub open spec fn err_no_commands() -> ErrorV {
    ErrorV {
        error_type: ValidationErrorType::MissingField,
        message: "Script must contain at least one command"@,
        location: loc_top("cdp_commands"@),
        suggestion: Some("Add at least one CDP command to the script"@),
    }
}

/// Finding: command `i` has an empty method.
pub open spec fn err_empty_method(i: nat) -> ErrorV {
    ErrorV {
        error_type: ValidationErrorType::MissingField,
        message: msg_command(i) + " has empty method name"@,
        location: loc_in_command(i, spec_field_prefix(i) + ".method"@),
        suggestion: Some("Specify a CDP method in Domain.method format"@),
    }
}

/// Finding: command `i`'s method lacks the separator.
pub open spec fn err_invalid_method(i: nat, m: Seq<char>) -> ErrorV {
    ErrorV {
        error_type: ValidationErrorType::InvalidValue,
        message: msg_command(i) + " has invalid method '"@ + m
            + "' (must be Domain.method format)"@,
        location: loc_in_command(i, spec_field_prefix(i) + ".method"@),
        suggestion: Some("Use format like 'Page.navigate' or 'Runtime.evaluate'"@),
    }
}

/// The known methods joined with `, `, from the front up to index `i`.
pub open spec fn spec_join_upto(s: Seq<Seq<char>>, i: nat) -> Seq<char>
    decreases i,
{
    if i == 0 {
        Seq::empty()
    } else if i == 1 {
        s[0]
    } else {
        spec_join_upto(s, (i - 1) as nat) + ", "@ + s[i - 1]
    }
}

/// The known methods joined with `, `.
pub open spec fn spec_known_joined() -> Seq<char> {
    spec_join_upto(spec_known_commands(), spec_known_commands().len())
}

/// Finding: command `i`'s method is not in the registry.
pub open spec fn err_unknown_command(i: nat, m: Seq<char>) -> ErrorV {
    ErrorV {
        error_type: ValidationErrorType::UnknownCommand,
        message: "Unknown CDP command: "@ + m,
        location: loc_in_command(i, spec_field_prefix(i) + ".method"@),
        suggestion: Some("Supported commands: "@ + spec_known_joined()),
    }
}

/// Finding: command `i` needs parameters but `params` is not an object.
pub open spec fn err_params_not_object(i: nat) -> ErrorV {
    ErrorV {
        error_type: ValidationErrorType::InvalidStructure,
        message: msg_command(i) + " params must be an object"@,
        location: loc_in_command(i, spec_field_prefix(i) + ".params"@),
        suggestion: Some("Params should be a JSON object with key-value pairs"@),
    }
}

/// Finding: command `i` is missing required parameter `p`.
pub open spec fn err_missing_param(i: nat, m: Seq<char>, p: Seq<char>) -> ErrorV {
    ErrorV {
        error_type: ValidationErrorType::MissingParameter,
        message: msg_command_method(i, m) + " missing required parameter '"@ + p + "'"@,
        location: loc_in_command(i, spec_field_prefix(i) + ".params."@ + p),
        suggestion: Some("Add '"@ + p + "' parameter"@),
    }
}

/// Finding: parameter `p` of command `i` has the wrong JSON type.
pub open spec fn err_type_mismatch(
    i: nat,
    m: Seq<char>,
    p: Seq<char>,
    expected: ParamType,
    actual: ParamType,
) -> ErrorV {
    ErrorV {
        error_type: ValidationErrorType::TypeMismatch,
        message: msg_command_method(i, m) + " parameter '"@ + p + "' has wrong type (expected "@
            + spec_type_name(expected) + ", got "@ + spec_type_name(actual) + ")"@,
        location: loc_in_command(i, spec_field_prefix(i) + ".params."@ + p),
        suggestion: Some("Change '"@ + p + "' to be a "@ + spec_type_name(expected)),
    }
}

/// Warning: parameter `p` of command `i` is not declared by the schema.
pub open spec fn warn_unknown_param(i: nat, m: Seq<char>, p: Seq<char>) -> Seq<char> {
    msg_command_method(i, m) + " has unknown parameter '"@ + p + "' (will be passed through)"@
}

/// Warning: the script name has characters outside the identifier set.
pub open spec fn warn_name_chars() -> Seq<char> {
    "Script name should only contain alphanumeric characters, hyphens, and underscores"@
}

/// Warning: the script description is empty.
pub open spec fn warn_empty_description() -> Seq<char> {
    "Script description is empty"@
}

// ===== what validation finds, as specification =====

/// Whether a character may appear in a script name without a warning.
pub open spec fn spec_idname_char(c: char) -> bool {
    spec_alphanumeric(c) || c == '-' || c == '_'
}

/// Whether every character of a script name is in the identifier set.
pub open spec fn spec_name_chars_ok(name: Seq<char>) -> bool {
    forall|i: int| 0 <= i < name.len() ==> spec_idname_char(#[trigger] name[i])
}

/// Errors from checking the first `k` required parameters against `entries`.
pub open spec fn missing_upto(
    required: Seq<Seq<char>>,
    entries: Seq<(Seq<char>, JsonV)>,
    i: nat,
    m: Seq<char>,
    k: nat,
) -> Seq<ErrorV>
    decreases k,
{
    if k == 0 {
        Seq::empty()
    } else {
        missing_upto(required, entries, i, m, (k - 1) as nat) + (
        if obj_has_key(entries, required[k - 1]) {
            Seq::empty()
        } else {
            seq![err_missing_param(i, m, required[k - 1])]
        })
    }
}

/// Type errors from checking the first `k` entries against the type table.
pub open spec fn type_errs_upto(
    entries: Seq<(Seq<char>, JsonV)>,
    types: Seq<(Seq<char>, ParamType)>,
    i: nat,
    m: Seq<char>,
    k: nat,
) -> Seq<ErrorV>
    decreases k,
{
    if k == 0 {
        Seq::empty()
    } else {
        type_errs_upto(entries, types, i, m, (k - 1) as nat) + (
        match assoc_lookup(types, entries[k - 1].0) {
            Some(expected) => match spec_param_type_of(entries[k - 1].1) {
                Some(actual) => if actual != expected {
                    seq![err_type_mismatch(i, m, entries[k - 1].0, expected, actual)]
                } else {
                    Seq::empty()
                },
                None => Seq::empty(),
            },
            None => Seq::empty(),
        })
    }
}

/// Unknown-parameter warnings from the first `k` entries.
pub open spec fn unknown_warns_upto(
    entries: Seq<(Seq<char>, JsonV)>,
    sc: SchemaV,
    i: nat,
    m: Seq<char>,
    k: nat,
) -> Seq<Seq<char>>
    decreases k,
{
    if k == 0 {
        Seq::empty()
    } else {
        unknown_warns_upto(entries, sc, i, m, (k - 1) as nat) + (
        if assoc_lookup(sc.param_types, entries[k - 1].0) is None && !sc.required_params.contains(
            entries[k - 1].0,
        ) && !sc.optional_params.contains(entries[k - 1].0) {
            seq![warn_unknown_param(i, m, entries[k - 1].0)]
        } else {
            Seq::empty()
        })
    }
}

/// Errors from checking command `c` at index `i` against schema `sc`.
pub open spec fn spec_param_errors(c: CommandV, sc: SchemaV, i: nat) -> Seq<ErrorV> {
    match c.params {
        JsonV::Obj(entries) => missing_upto(
            sc.required_params,
            entries,
            i,
            c.method,
            sc.required_params.len(),
        ) + type_errs_upto(entries, sc.param_types, i, c.method, entries.len()),
        _ => if sc.required_params.len() > 0 {
            seq![err_params_not_object(i)]
        } else {
            Seq::empty()
        },
    }
}

/// Warnings from checking command `c` at index `i` against schema `sc`.
pub open spec fn spec_param_warnings(c: CommandV, sc: SchemaV, i: nat) -> Seq<Seq<char>> {
    match c.params {
        JsonV::Obj(entries) => unknown_warns_upto(entries, sc, i, c.method, entries.len()),
        _ => Seq::empty(),
    }
}

/// All errors of command `c` at index `i`.  The checks stop at the first
/// failure of the method itself: an empty method, a method without the
/// separator, and an unknown method each yield exactly one error.
pub open spec fn spec_command_errors(c: CommandV, i: nat) -> Seq<ErrorV> {
    if c.method.len() == 0 {
        seq![err_empty_method(i)]
    } else if !crate::strutil::seq_has_char(c.method, '.') {
        seq![err_invalid_method(i, c.method)]
    } else if !spec_known_commands().contains(c.method) {
        seq![err_unknown_command(i, c.method)]
    } else {
        match spec_schema_lookup(c.method) {
            Some(sc) => spec_param_errors(c, sc, i),
            None => Seq::empty(),
        }
    }
}

/// All warnings of command `c` at index `i`.
pub open spec fn spec_command_warnings(c: CommandV, i: nat) -> Seq<Seq<char>> {
    if c.method.len() == 0 || !crate::strutil::seq_has_char(c.method, '.')
        || !spec_known_commands().contains(c.method) {
        Seq::empty()
    } else {
        match spec_schema_lookup(c.method) {
            Some(sc) => spec_param_warnings(c, sc, i),
            None => Seq::empty(),
        }
    }
}

/// Errors of the first `k` commands.
pub open spec fn cmd_errors_upto(cmds: Seq<CommandV>, k: nat) -> Seq<ErrorV>
    decreases k,
{
    if k == 0 {
        Seq::empty()
    } else {
        cmd_errors_upto(cmds, (k - 1) as nat) + spec_command_errors(cmds[k - 1], (k - 1) as nat)
    }
}

/// Warnings of the first `k` commands.
pub open spec fn cmd_warnings_upto(cmds: Seq<CommandV>, k: nat) -> Seq<Seq<char>>
    decreases k,
{
    if k == 0 {
        Seq::empty()
    } else {
        cmd_warnings_upto(cmds, (k - 1) as nat) + spec_command_warnings(
            cmds[k - 1],
            (k - 1) as nat,
        )
    }
}

/// Head errors of a script: an empty name is reported first.
pub open spec fn spec_head_errors(s: ScriptV) -> Seq<ErrorV> {
    if s.name.len() == 0 {
        seq![err_name_missing()]
    } else {
        Seq::empty()
    }
}

/// All errors of a script: the name check, then either the empty-command
/// report or every command's errors in order.
pub open spec fn spec_script_errors(s: ScriptV) -> Seq<ErrorV> {
    if s.commands.len() == 0 {
        spec_head_errors(s).push(err_no_commands())
    } else {
        spec_head_errors(s) + cmd_errors_upto(s.commands, s.commands.len())
    }
}

/// Head warnings of a script: the name-character check, then the empty
/// description.
pub open spec fn spec_head_warnings(s: ScriptV) -> Seq<Seq<char>> {
    (if s.name.len() > 0 && !spec_name_chars_ok(s.name) {
        seq![warn_name_chars()]
    } else {
        Seq::empty()
    }) + (if s.description.len() == 0 {
        seq![warn_empty_description()]
    } else {
        Seq::empty()
    })
}

/// All warnings of a script.
pub open spec fn spec_script_warnings(s: ScriptV) -> Seq<Seq<char>> {
    if s.commands.len() == 0 {
        spec_head_warnings(s)
    } else {
        spec_head_warnings(s) + cmd_warnings_upto(s.commands, s.commands.len())
    }
}

// ===== the validator =====

/// What a Unicode-alphanumeric character is; said by the standard library.
pub uninterp spec fn spec_alphanumeric(c: char) -> bool;

/// Relies on char::is_alphanumeric: whether a character is alphanumeric
/// depends on the character alone.
#[verifier::external_body]
fn char_is_alphanumeric(c: char) -> (r: bool)
    ensures
        r == spec_alphanumeric(c),
{
    c.is_alphanumeric()
}

/// Whether every character of `s` is alphanumeric, a hyphen or an
/// underscore.
fn name_chars_ok(s: &str) -> (r: bool)
    ensures
        r == spec_name_chars_ok(s@),
{
    let len: usize = s.unicode_len();
    let mut i: usize = 0;
    while i < len
        invariant
            len == s@.len(),
            i <= len,
            forall|j: int| 0 <= j < i ==> spec_idname_char(#[trigger] s@[j]),
        decreases len - i,
    {
        let c = s.get_char(i);
        if !(char_is_alphanumeric(c) || c == '-' || c == '_') {
            return false;
        }
        i = i + 1;
    }
    true
}

/// Whether some string of `v` reads `s`.
fn strs_contains(v: &Vec<String>, s: &str) -> (r: bool)
    ensures
        r == strs_view(v@).contains(s@),
{
    let mut i: usize = 0;
    while i < v.len()
        invariant
            i <= v@.len(),
            forall|j: int| 0 <= j < i ==> strs_view(v@)[j] != s@,
        decreases v@.len() - i,
    {
        if string_eq_str(&v[i], s) {
            assert(strs_view(v@)[i as int] == s@);
            return true;
        }
        i = i + 1;
    }
    assert(!strs_view(v@).contains(s@)) by {
        if strs_view(v@).contains(s@) {
            let j = choose|j: int| 0 <= j < strs_view(v@).len() && strs_view(v@)[j] == s@;
        }
    }
    false
}

/// The declared type of `key`, if the type table has it.
fn types_get(v: &Vec<(String, ParamType)>, key: &str) -> (r: Option<ParamType>)
    ensures
        r == assoc_lookup(tys_view(v@), key@),
{
    let mut i: usize = 0;
    while i < v.len()
        invariant
            i <= v@.len(),
            forall|j: int| 0 <= j < i ==> tys_view(v@)[j].0 != key@,
        decreases v@.len() - i,
    {
        if string_eq_str(&v[i].0, key) {
            proof {
                lemma_assoc_lookup_found(tys_view(v@), key@, i as int);
            }
            return Some(v[i].1);
        }
        i = i + 1;
    }
    proof {
        lemma_assoc_lookup_absent(tys_view(v@), key@);
    }
    None
}

/// Schema-driven validator over the fixed registry of CDP commands.
pub struct CdpValidator {
    /// The known methods, in registry order.
    valid_commands: Vec<String>,
    /// Parameter schema of each method that declares one.
    parameter_schemas: Vec<(String, CommandSchema)>,
}

/// Spec views of the schema table.
pub open spec fn schemas_view(s: Seq<(String, CommandSchema)>) -> Seq<(Seq<char>, SchemaV)> {
    Seq::new(
        s.len(),
        |i: int|
            if 0 <= i < s.len() {
                (s[i].0@, s[i].1@)
            } else {
                (
                    Seq::empty(),
                    SchemaV {
                        required_params: Seq::empty(),
                        optional_params: Seq::empty(),
                        param_types: Seq::empty(),
                    },
                )
            },
    )
}

impl CdpValidator {
    /// The validator holds exactly the registry of the specification.
    pub closed spec fn wf(&self) -> bool {
        &&& strs_view(self.valid_commands@) == spec_known_commands()
        &&& schemas_view(self.parameter_schemas@) == spec_registry()
    }
}

// ===== building the registry =====

fn push_s(v: &mut Vec<String>, s: &str)
    ensures
        strs_view(final(v)@) == strs_view(old(v)@).push(s@),
{
    v.push(String::from_str(s));
    proof {
        assert(strs_view(v@) =~= strs_view(old(v)@).push(s@));
    }
}

fn push_t(v: &mut Vec<(String, ParamType)>, s: &str, t: ParamType)
    ensures
        tys_view(final(v)@) == tys_view(old(v)@).push((s@, t)),
{
    v.push((String::from_str(s), t));
    proof {
        assert(tys_view(v@) =~= tys_view(old(v)@).push((s@, t)));
    }
}

fn schema_navigate() -> (r: CommandSchema)
    ensures
        r@ == spec_schema_navigate(),
{
    let mut required: Vec<String> = Vec::new();
    push_s(&mut required, "url");
    let mut optional: Vec<String> = Vec::new();
    push_s(&mut optional, "referrer");
    push_s(&mut optional, "transitionType");
    push_s(&mut optional, "frameId");
    let mut types: Vec<(String, ParamType)> = Vec::new();
    push_t(&mut types, "url", ParamType::String);
    push_t(&mut types, "referrer", ParamType::String);
    push_t(&mut types, "transitionType", ParamType::String);
    push_t(&mut types, "frameId", ParamType::String);
    let r = CommandSchema { required_params: required, optional_params: optional, param_types: types };
    proof {
        assert(r@.required_params =~= spec_schema_navigate().required_params);
        assert(r@.optional_params =~= spec_schema_navigate().optional_params);
        assert(r@.param_types =~= spec_schema_navigate().param_types);
    }
    r
}

fn schema_screenshot() -> (r: CommandSchema)
    ensures
        r@ == spec_schema_screenshot(),
{
    let required: Vec<String> = Vec::new();
    let mut optional: Vec<String> = Vec::new();
    push_s(&mut optional, "format");
    push_s(&mut optional, "quality");
    push_s(&mut optional, "clip");
    push_s(&mut optional, "captureBeyondViewport");
    let mut types: Vec<(String, ParamType)> = Vec::new();
    push_t(&mut types, "format", ParamType::String);
    push_t(&mut types, "quality", ParamType::Number);
    push_t(&mut types, "clip", ParamType::Object);
    push_t(&mut types, "captureBeyondViewport", ParamType::Boolean);
    let r = CommandSchema { required_params: required, optional_params: optional, param_types: types };
    proof {
        assert(r@.required_params =~= spec_schema_screenshot().required_params);
        assert(r@.optional_params =~= spec_schema_screenshot().optional_params);
        assert(r@.param_types =~= spec_schema_screenshot().param_types);
    }
    r
}

fn schema_evaluate() -> (r: CommandSchema)
    ensures
        r@ == spec_schema_evaluate(),
{
    let mut required: Vec<String> = Vec::new();
    push_s(&mut required, "expression");
    let mut optional: Vec<String> = Vec::new();
    push_s(&mut optional, "returnByValue");
    push_s(&mut optional, "awaitPromise");
    push_s(&mut optional, "userGesture");
    let mut types: Vec<(String, ParamType)> = Vec::new();
    push_t(&mut types, "expression", ParamType::String);
    push_t(&mut types, "returnByValue", ParamType::Boolean);
    push_t(&mut types, "awaitPromise", ParamType::Boolean);
    push_t(&mut types, "userGesture", ParamType::Boolean);
    let r = CommandSchema { required_params: required, optional_params: optional, param_types: types };
    proof {
        assert(r@.required_params =~= spec_schema_evaluate().required_params);
        assert(r@.optional_params =~= spec_schema_evaluate().optional_params);
        assert(r@.param_types =~= spec_schema_evaluate().param_types);
    }
    r
}

fn schema_insert_text() -> (r: CommandSchema)
    ensures
        r@ == spec_schema_insert_text(),
{
    let mut required: Vec<String> = Vec::new();
    push_s(&mut required, "text");
    let optional: Vec<String> = Vec::new();
    let mut types: Vec<(String, ParamType)> = Vec::new();
    push_t(&mut types, "text", ParamType::String);
    let r = CommandSchema { required_params: required, optional_params: optional, param_types: types };
    proof {
        assert(r@.required_params =~= spec_schema_insert_text().required_params);
        assert(r@.optional_params =~= spec_schema_insert_text().optional_params);
        assert(r@.param_types =~= spec_schema_insert_text().param_types);
    }
    r
}

fn schema_mouse_event() -> (r: CommandSchema)
    ensures
        r@ == spec_schema_mouse_event(),
{
    let mut required: Vec<String> = Vec::new();
    push_s(&mut required, "type");
    push_s(&mut required, "x");
    push_s(&mut required, "y");
    let mut optional: Vec<String> = Vec::new();
    push_s(&mut optional, "button");
    push_s(&mut optional, "clickCount");
    push_s(&mut optional, "modifiers");
    let mut types: Vec<(String, ParamType)> = Vec::new();
    push_t(&mut types, "type", ParamType::String);
    push_t(&mut types, "x", ParamType::Number);
    push_t(&mut types, "y", ParamType::Number);
    push_t(&mut types, "button", ParamType::String);
    push_t(&mut types, "clickCount", ParamType::Number);
    push_t(&mut types, "modifiers", ParamType::Number);
    let r = CommandSchema { required_params: required, optional_params: optional, param_types: types };
    proof {
        assert(r@.required_params =~= spec_schema_mouse_event().required_params);
        assert(r@.optional_params =~= spec_schema_mouse_event().optional_params);
        assert(r@.param_types =~= spec_schema_mouse_event().param_types);
    }
    r
}

fn schema_key_event() -> (r: CommandSchema)
    ensures
        r@ == spec_schema_key_event(),
{
    let mut required: Vec<String> = Vec::new();
    push_s(&mut required, "type");
    let mut optional: Vec<String> = Vec::new();
    push_s(&mut optional, "key");
    push_s(&mut optional, "code");
    push_s(&mut optional, "text");
    push_s(&mut optional, "modifiers");
    let mut types: Vec<(String, ParamType)> = Vec::new();
    push_t(&mut types, "type", ParamType::String);
    push_t(&mut types, "key", ParamType::String);
    push_t(&mut types, "code", ParamType::String);
    push_t(&mut types, "text", ParamType::String);
    push_t(&mut types, "modifiers", ParamType::Number);
    let r = CommandSchema { required_params: required, optional_params: optional, param_types: types };
    proof {
        assert(r@.required_params =~= spec_schema_key_event().required_params);
        assert(r@.optional_params =~= spec_schema_key_event().optional_params);
        assert(r@.param_types =~= spec_schema_key_event().param_types);
    }
    r
}

fn schema_set_cookie() -> (r: CommandSchema)
    ensures
        r@ == spec_schema_set_cookie(),
{
    let mut required: Vec<String> = Vec::new();
    push_s(&mut required, "name");
    push_s(&mut required, "value");
    let mut optional: Vec<String> = Vec::new();
    push_s(&mut optional, "url");
    push_s(&mut optional, "domain");
    push_s(&mut optional, "path");
    push_s(&mut optional, "secure");
    push_s(&mut optional, "httpOnly");
    push_s(&mut optional, "expires");
    let mut types: Vec<(String, ParamType)> = Vec::new();
    push_t(&mut types, "name", ParamType::String);
    push_t(&mut types, "value", ParamType::String);
    push_t(&mut types, "url", ParamType::String);
    push_t(&mut types, "domain", ParamType::String);
    push_t(&mut types, "path", ParamType::String);
    push_t(&mut types, "secure", ParamType::Boolean);
    push_t(&mut types, "httpOnly", ParamType::Boolean);
    push_t(&mut types, "expires", ParamType::Number);
    let r = CommandSchema { required_params: required, optional_params: optional, param_types: types };
    proof {
        assert(r@.required_params =~= spec_schema_set_cookie().required_params);
        assert(r@.optional_params =~= spec_schema_set_cookie().optional_params);
        assert(r@.param_types =~= spec_schema_set_cookie().param_types);
    }
    r
}

fn schema_delete_cookies() -> (r: CommandSchema)
    ensures
        r@ == spec_schema_delete_cookies(),
{
    let mut required: Vec<String> = Vec::new();
    push_s(&mut required, "name");
    let mut optional: Vec<String> = Vec::new();
    push_s(&mut optional, "url");
    push_s(&mut optional, "domain");
    push_s(&mut optional, "path");
    let mut types: Vec<(String, ParamType)> = Vec::new();
    push_t(&mut types, "name", ParamType::String);
    push_t(&mut types, "url", ParamType::String);
    push_t(&mut types, "domain", ParamType::String);
    push_t(&mut types, "path", ParamType::String);
    let r = CommandSchema { required_params: required, optional_params: optional, param_types: types };
    proof {
        assert(r@.required_params =~= spec_schema_delete_cookies().required_params);
        assert(r@.optional_params =~= spec_schema_delete_cookies().optional_params);
        assert(r@.param_types =~= spec_schema_delete_cookies().param_types);
    }
    r
}

fn schema_geolocation() -> (r: CommandSchema)
    ensures
        r@ == spec_schema_geolocation(),
{
    let required: Vec<String> = Vec::new();
    let mut optional: Vec<String> = Vec::new();
    push_s(&mut optional, "latitude");
    push_s(&mut optional, "longitude");
    push_s(&mut optional, "accuracy");
    let mut types: Vec<(String, ParamType)> = Vec::new();
    push_t(&mut types, "latitude", ParamType::Number);
    push_t(&mut types, "longitude", ParamType::Number);
    push_t(&mut types, "accuracy", ParamType::Number);
    let r = CommandSchema { required_params: required, optional_params: optional, param_types: types };
    proof {
        assert(r@.required_params =~= spec_schema_geolocation().required_params);
        assert(r@.optional_params =~= spec_schema_geolocation().optional_params);
        assert(r@.param_types =~= spec_schema_geolocation().param_types);
    }
    r
}

fn schema_device_metrics() -> (r: CommandSchema)
    ensures
        r@ == spec_schema_device_metrics(),
{
    let mut required: Vec<String> = Vec::new();
    push_s(&mut required, "width");
    push_s(&mut required, "height");
    push_s(&mut required, "deviceScaleFactor");
    push_s(&mut required, "mobile");
    let mut optional: Vec<String> = Vec::new();
    push_s(&mut optional, "screenWidth");
    push_s(&mut optional, "screenHeight");
    push_s(&mut optional, "screenOrientation");
    let mut types: Vec<(String, ParamType)> = Vec::new();
    push_t(&mut types, "width", ParamType::Number);
    push_t(&mut types, "height", ParamType::Number);
    push_t(&mut types, "deviceScaleFactor", ParamType::Number);
    push_t(&mut types, "mobile", ParamType::Boolean);
    push_t(&mut types, "screenWidth", ParamType::Number);
    push_t(&mut types, "screenHeight", ParamType::Number);
    push_t(&mut types, "screenOrientation", ParamType::Object);
    let r = CommandSchema { required_params: required, optional_params: optional, param_types: types };
    proof {
        assert(r@.required_params =~= spec_schema_device_metrics().required_params);
        assert(r@.optional_params =~= spec_schema_device_metrics().optional_params);
        assert(r@.param_types =~= spec_schema_device_metrics().param_types);
    }
    r
}

fn push_schema(v: &mut Vec<(String, CommandSchema)>, name: &str, sc: CommandSchema)
    ensures
        schemas_view(final(v)@) == schemas_view(old(v)@).push((name@, sc@)),
{
    v.push((String::from_str(name), sc));
    proof {
        assert(schemas_view(v@) =~= schemas_view(old(v)@).push((name@, sc@)));
    }
}

impl CdpValidator {
    /// Build the validator with every supported CDP command and its schema.
    pub fn new() -> (r: Self)
        ensures
            r.wf(),
    {
        let mut valid_commands: Vec<String> = Vec::new();
        push_s(&mut valid_commands, "Page.navigate");
        push_s(&mut valid_commands, "Page.captureScreenshot");
        push_s(&mut valid_commands, "Page.reload");
        push_s(&mut valid_commands, "Page.goBack");
        push_s(&mut valid_commands, "Page.goForward");
        push_s(&mut valid_commands, "Runtime.evaluate");
        push_s(&mut valid_commands, "Input.insertText");
        push_s(&mut valid_commands, "Input.dispatchMouseEvent");
        push_s(&mut valid_commands, "Input.dispatchKeyEvent");
        push_s(&mut valid_commands, "Network.getCookies");
        push_s(&mut valid_commands, "Network.setCookie");
        push_s(&mut valid_commands, "Network.deleteCookies");
        push_s(&mut valid_commands, "Emulation.setGeolocationOverride");
        push_s(&mut valid_commands, "Emulation.setDeviceMetricsOverride");
        push_s(&mut valid_commands, "Emulation.clearGeolocationOverride");
        let mut parameter_schemas: Vec<(String, CommandSchema)> = Vec::new();
        push_schema(&mut parameter_schemas, "Page.navigate", schema_navigate());
        push_schema(&mut parameter_schemas, "Page.captureScreenshot", schema_screenshot());
        push_schema(&mut parameter_schemas, "Runtime.evaluate", schema_evaluate());
        push_schema(&mut parameter_schemas, "Input.insertText", schema_insert_text());
        push_schema(&mut parameter_schemas, "Input.dispatchMouseEvent", schema_mouse_event());
        push_schema(&mut parameter_schemas, "Input.dispatchKeyEvent", schema_key_event());
        push_schema(&mut parameter_schemas, "Network.setCookie", schema_set_cookie());
        push_schema(&mut parameter_schemas, "Network.deleteCookies", schema_delete_cookies());
        push_schema(
            &mut parameter_schemas,
            "Emulation.setGeolocationOverride",
            schema_geolocation(),
        );
        push_schema(
            &mut parameter_schemas,
            "Emulation.setDeviceMetricsOverride",
            schema_device_metrics(),
        );
        let r = Self { valid_commands, parameter_schemas };
        proof {
            assert(strs_view(r.valid_commands@) =~= spec_known_commands());
            assert(schemas_view(r.parameter_schemas@) =~= spec_registry());
        }
        r
    }

    /// Whether the registry knows `m`.
    fn known_contains(&self, m: &str) -> (r: bool)
        requires
            self.wf(),
        ensures
            r == spec_known_commands().contains(m@),
    {
        strs_contains(&self.valid_commands, m)
    }

    /// The schema of `m`, if the registry declares one.
    fn schema_get<'a>(&'a self, m: &str) -> (r: Option<&'a CommandSchema>)
        requires
            self.wf(),
        ensures
            match r {
                Some(sc) => spec_schema_lookup(m@) == Some(sc@),
                None => spec_schema_lookup(m@) is None,
            },
    {
        let mut i: usize = 0;
        while i < self.parameter_schemas.len()
            invariant
                self.wf(),
                i <= self.parameter_schemas@.len(),
                forall|j: int| 0 <= j < i ==> schemas_view(self.parameter_schemas@)[j].0 != m@,
            decreases self.parameter_schemas@.len() - i,
        {
            if string_eq_str(&self.parameter_schemas[i].0, m) {
                proof {
                    lemma_assoc_lookup_found(schemas_view(self.parameter_schemas@), m@, i as int);
                }
                return Some(&self.parameter_schemas[i].1);
            }
            i = i + 1;
        }
        proof {
            lemma_assoc_lookup_absent(schemas_view(self.parameter_schemas@), m@);
        }
        None
    }

    /// The methods the registry knows, in registry order.
    pub fn known_methods(&self) -> (r: &Vec<String>)
        requires
            self.wf(),
        ensures
            strs_view(r@) == spec_known_commands(),
    {
        &self.valid_commands
    }

    /// The parameter schema the registry declares for `method`, if any.
    pub fn lookup<'a>(&'a self, method: &str) -> (r: Option<&'a CommandSchema>)
        requires
            self.wf(),
        ensures
            match r {
                Some(sc) => spec_schema_lookup(method@) == Some(sc@),
                None => spec_schema_lookup(method@) is None,
            },
    {
        self.schema_get(method)
    }

    /// The known methods joined with `, `, for suggestions.
    fn join_known(&self) -> (r: String)
        requires
            self.wf(),
        ensures
            r@ == spec_known_joined(),
    {
        let mut out = String::new();
        let mut i: usize = 0;
        while i < self.valid_commands.len()
            invariant
                self.wf(),
                i <= self.valid_commands@.len(),
                out@ == spec_join_upto(spec_known_commands(), i as nat),
            decreases self.valid_commands@.len() - i,
        {
            if i > 0 {
                out.append(", ");
            }
            out.append(self.valid_commands[i].as_str());
            proof {
                assert(strs_view(self.valid_commands@)[i as int] == self.valid_commands@[
                    i as int
                ]@);
            }
            i = i + 1;
        }
        out
    }
}

// ===== building findings =====

fn cmd_msg(index: usize) -> (r: String)
    requires
        index < usize::MAX,
    ensures
        r@ == msg_command(index as nat),
{
    let mut m = String::from_str("Command ");
    m.append(usize_to_string(index + 1).as_str());
    proof {
        assert(m@ =~= msg_command(index as nat));
    }
    m
}

fn cmd_method_msg(index: usize, method: &str) -> (r: String)
    requires
        index < usize::MAX,
    ensures
        r@ == msg_command_method(index as nat, method@),
{
    let mut m = cmd_msg(index);
    m.append(" (");
    m.append(method);
    m.append(")");
    proof {
        assert(m@ =~= msg_command_method(index as nat, method@));
    }
    m
}

fn field_prefix(index: usize) -> (r: String)
    ensures
        r@ == spec_field_prefix(index as nat),
{
    let mut p = String::from_str("cdp_commands[");
    p.append(usize_to_string(index).as_str());
    p.append("]");
    proof {
        assert(p@ =~= spec_field_prefix(index as nat));
    }
    p
}

fn loc_cmd(index: usize, path: String) -> (r: ErrorLocation)
    ensures
        r@ == loc_in_command(index as nat, path@),
{
    ErrorLocation { command_index: Some(index), field_path: path, line: None, column: None }
}

fn method_path(index: usize) -> (r: String)
    ensures
        r@ == spec_field_prefix(index as nat) + ".method"@,
{
    let mut p = field_prefix(index);
    p.append(".method");
    p
}

fn param_path(index: usize, p: &str) -> (r: String)
    ensures
        r@ == spec_field_prefix(index as nat) + ".params."@ + p@,
{
    let mut fp = field_prefix(index);
    fp.append(".params.");
    fp.append(p);
    proof {
        assert(fp@ =~= spec_field_prefix(index as nat) + ".params."@ + p@);
    }
    fp
}

fn mk_err_name_missing() -> (e: ValidationError)
    ensures
        e@ == err_name_missing(),
{
    ValidationError {
        error_type: ValidationErrorType::MissingField,
        message: String::from_str("Script name is required and cannot be empty"),
        location: ErrorLocation {
            command_index: None,
            field_path: String::from_str("name"),
            line: None,
            column: None,
        },
        suggestion: Some(String::from_str("Add a descriptive name for your script")),
    }
}

fn mk_err_no_commands() -> (e: ValidationError)
    ensures
        e@ == err_no_commands(),
{
    ValidationError {
        error_type: ValidationErrorType::MissingField,
        message: String::from_str("Script must contain at least one command"),
        location: ErrorLocation {
            command_index: None,
            field_path: String::from_str("cdp_commands"),
            line: None,
            column: None,
        },
        suggestion: Some(String::from_str("Add at least one CDP command to the script")),
    }
}

fn mk_err_empty_method(index: usize) -> (e: ValidationError)
    requires
        index < usize::MAX,
    ensures
        e@ == err_empty_method(index as nat),
{
    let mut msg = cmd_msg(index);
    msg.append(" has empty method name");
    let e = ValidationError {
        error_type: ValidationErrorType::MissingField,
        message: msg,
        location: loc_cmd(index, method_path(index)),
        suggestion: Some(String::from_str("Specify a CDP method in Domain.method format")),
    };
    proof {
        assert(e@.message =~= err_empty_method(index as nat).message);
    }
    e
}

fn mk_err_invalid_method(index: usize, method: &str) -> (e: ValidationError)
    requires
        index < usize::MAX,
    ensures
        e@ == err_invalid_method(index as nat, method@),
{
    let mut msg = cmd_msg(index);
    msg.append(" has invalid method '");
    msg.append(method);
    msg.append("' (must be Domain.method format)");
    let e = ValidationError {
        error_type: ValidationErrorType::InvalidValue,
        message: msg,
        location: loc_cmd(index, method_path(index)),
        suggestion: Some(String::from_str("Use format like 'Page.navigate' or 'Runtime.evaluate'")),
    };
    proof {
        assert(e@.message =~= err_invalid_method(index as nat, method@).message);
    }
    e
}

fn mk_err_params_not_object(index: usize) -> (e: ValidationError)
    requires
        index < usize::MAX,
    ensures
        e@ == err_params_not_object(index as nat),
{
    let mut msg = cmd_msg(index);
    msg.append(" params must be an object");
    let mut path = field_prefix(index);
    path.append(".params");
    let e = ValidationError {
        error_type: ValidationErrorType::InvalidStructure,
        message: msg,
        location: loc_cmd(index, path),
        suggestion: Some(String::from_str("Params should be a JSON object with key-value pairs")),
    };
    proof {
        assert(e@.message =~= err_params_not_object(index as nat).message);
    }
    e
}

fn mk_err_missing_param(index: usize, method: &str, p: &str) -> (e: ValidationError)
    requires
        index < usize::MAX,
    ensures
        e@ == err_missing_param(index as nat, method@, p@),
{
    let mut msg = cmd_method_msg(index, method);
    msg.append(" missing required parameter '");
    msg.append(p);
    msg.append("'");
    let mut sugg = String::from_str("Add '");
    sugg.append(p);
    sugg.append("' parameter");
    let e = ValidationError {
        error_type: ValidationErrorType::MissingParameter,
        message: msg,
        location: loc_cmd(index, param_path(index, p)),
        suggestion: Some(sugg),
    };
    proof {
        assert(e@.message =~= err_missing_param(index as nat, method@, p@).message);
        assert(e@.suggestion->0 =~= err_missing_param(index as nat, method@, p@).suggestion->0);
    }
    e
}

fn mk_err_type_mismatch(
    index: usize,
    method: &str,
    p: &str,
    expected: ParamType,
    actual: ParamType,
) -> (e: ValidationError)
    requires
        index < usize::MAX,
    ensures
        e@ == err_type_mismatch(index as nat, method@, p@, expected, actual),
{
    let mut msg = cmd_method_msg(index, method);
    msg.append(" parameter '");
    msg.append(p);
    msg.append("' has wrong type (expected ");
    msg.append(type_name_str(expected));
    msg.append(", got ");
    msg.append(type_name_str(actual));
    msg.append(")");
    let mut sugg = String::from_str("Change '");
    sugg.append(p);
    sugg.append("' to be a ");
    sugg.append(type_name_str(expected));
    let e = ValidationError {
        error_type: ValidationErrorType::TypeMismatch,
        message: msg,
        location: loc_cmd(index, param_path(index, p)),
        suggestion: Some(sugg),
    };
    proof {
        assert(e@.message =~= err_type_mismatch(index as nat, method@, p@, expected, actual)
            .message);
        assert(e@.suggestion->0 =~= err_type_mismatch(index as nat, method@, p@, expected, actual)
            .suggestion->0);
    }
    e
}

fn mk_warn_unknown_param(index: usize, method: &str, p: &str) -> (w: String)
    requires
        index < usize::MAX,
    ensures
        w@ == warn_unknown_param(index as nat, method@, p@),
{
    let mut msg = cmd_method_msg(index, method);
    msg.append(" has unknown parameter '");
    msg.append(p);
    msg.append("' (will be passed through)");
    proof {
        assert(msg@ =~= warn_unknown_param(index as nat, method@, p@));
    }
    msg
}

// ===== the validation passes =====

impl CdpValidator {
    /// Check one command's parameters against its schema: every required
    /// parameter that is absent and every declared parameter whose type
    /// disagrees is reported; undeclared parameters only warn.
    #[verifier::loop_isolation(false)]
    #[verifier::rlimit(60)]
    fn validate_parameters(
        &self,
        cmd: &CdpCommand,
        schema: &CommandSchema,
        index: usize,
        result: &mut ValidationResult,
    )
        requires
            index < usize::MAX,
        ensures
            final(result)@.errors == old(result)@.errors + spec_param_errors(
                cmd@,
                schema@,
                index as nat,
            ),
            final(result)@.warnings == old(result)@.warnings + spec_param_warnings(
                cmd@,
                schema@,
                index as nat,
            ),
            final(result)@.is_valid == (old(result)@.is_valid && spec_param_errors(
                cmd@,
                schema@,
                index as nat,
            ).len() == 0),
    {
        match &cmd.params {
            JsonValue::Obj(entries) => {
                let ghost ev = jv_entries(entries@);
                let ghost m = cmd@.method;
                let mut k: usize = 0;
                while k < schema.required_params.len()
                    invariant
                        k <= schema.required_params@.len(),
                        result@.errors == old(result)@.errors + missing_upto(
                            schema@.required_params,
                            ev,
                            index as nat,
                            m,
                            k as nat,
                        ),
                        result@.warnings == old(result)@.warnings,
                        result@.is_valid == (old(result)@.is_valid && missing_upto(
                            schema@.required_params,
                            ev,
                            index as nat,
                            m,
                            k as nat,
                        ).len() == 0),
                    decreases schema.required_params@.len() - k,
                {
                    let p = &schema.required_params[k];
                    proof {
                        assert(schema@.required_params[k as int] == p@);
                    }
                    if crate::json::obj_get(entries, p.as_str()).is_none() {
                        result.add_error(mk_err_missing_param(index, cmd.method.as_str(), p.as_str()));
                        proof {
                            assert(result@.errors =~= old(result)@.errors + missing_upto(
                                schema@.required_params,
                                ev,
                                index as nat,
                                m,
                                (k + 1) as nat,
                            ));
                        }
                    } else {
                        proof {
                            assert(result@.errors =~= old(result)@.errors + missing_upto(
                                schema@.required_params,
                                ev,
                                index as nat,
                                m,
                                (k + 1) as nat,
                            ));
                        }
                    }
                    k = k + 1;
                }
                let ghost missing = missing_upto(
                    schema@.required_params,
                    ev,
                    index as nat,
                    m,
                    schema@.required_params.len() as nat,
                );
                let mut j: usize = 0;
                while j < entries.len()
                    invariant
                        j <= entries@.len(),
                        result@.errors == old(result)@.errors + missing + type_errs_upto(
                            ev,
                            schema@.param_types,
                            index as nat,
                            m,
                            j as nat,
                        ),
                        result@.warnings == old(result)@.warnings + unknown_warns_upto(
                            ev,
                            schema@,
                            index as nat,
                            m,
                            j as nat,
                        ),
                        result@.is_valid == (old(result)@.is_valid && missing.len() == 0
                            && type_errs_upto(
                            ev,
                            schema@.param_types,
                            index as nat,
                            m,
                            j as nat,
                        ).len() == 0),
                    decreases entries@.len() - j,
                {
                    let name = &entries[j].0;
                    let value = &entries[j].1;
                    proof {
                        assert(ev[j as int] == (name@, jv(*value)));
                    }
                    match types_get(&schema.param_types, name.as_str()) {
                        Some(expected) => {
                            match param_type_of(value) {
                                Some(actual) => {
                                    if actual != expected {
                                        result.add_error(
                                            mk_err_type_mismatch(
                                                index,
                                                cmd.method.as_str(),
                                                name.as_str(),
                                                expected,
                                                actual,
                                            ),
                                        );
                                        proof {
                                            assert(result@.errors =~= old(result)@.errors + missing
                                                + type_errs_upto(
                                                ev,
                                                schema@.param_types,
                                                index as nat,
                                                m,
                                                (j + 1) as nat,
                                            ));
                                        }
                                    }
                                },
                                None => {},
                            }
                        },
                        None => {
                            let in_required = strs_contains(&schema.required_params, name.as_str());
                            let in_optional = strs_contains(&schema.optional_params, name.as_str());
                            if !in_required && !in_optional {
                                result.add_warning(
                                    mk_warn_unknown_param(index, cmd.method.as_str(), name.as_str()),
                                );
                                proof {
                                    assert(result@.warnings =~= old(result)@.warnings
                                        + unknown_warns_upto(
                                        ev,
                                        schema@,
                                        index as nat,
                                        m,
                                        (j + 1) as nat,
                                    ));
                                }
                            }
                        },
                    }
                    proof {
                        assert(result@.errors =~= old(result)@.errors + missing + type_errs_upto(
                            ev,
                            schema@.param_types,
                            index as nat,
                            m,
                            (j + 1) as nat,
                        ));
                        assert(result@.warnings =~= old(result)@.warnings + unknown_warns_upto(
                            ev,
                            schema@,
                            index as nat,
                            m,
                            (j + 1) as nat,
                        ));
                    }
                    j = j + 1;
                }
            },
            _ => {
                if schema.required_params.len() > 0 {
                    result.add_error(mk_err_params_not_object(index));
                    proof {
                        assert(result@.errors =~= old(result)@.errors + spec_param_errors(
                            cmd@,
                            schema@,
                            index as nat,
                        ));
                    }
                } else {
                    proof {
                        assert(result@.errors =~= old(result)@.errors + spec_param_errors(
                            cmd@,
                            schema@,
                            index as nat,
                        ));
                    }
                }
            },
        }
    }

    /// Check one command: method shape, registry membership, then its
    /// parameters; the first failing method check ends the command's checks.
    pub fn validate_command(&self, cmd: &CdpCommand, index: usize, result: &mut ValidationResult)
        requires
            self.wf(),
            index < usize::MAX,
        ensures
            final(result)@.errors == old(result)@.errors + spec_command_errors(cmd@, index as nat),
            final(result)@.warnings == old(result)@.warnings + spec_command_warnings(
                cmd@,
                index as nat,
            ),
            final(result)@.is_valid == (old(result)@.is_valid && spec_command_errors(
                cmd@,
                index as nat,
            ).len() == 0),
    {
        if cmd.method.as_str().is_empty() {
            result.add_error(mk_err_empty_method(index));
            proof {
                assert(result@.errors =~= old(result)@.errors + spec_command_errors(
                    cmd@,
                    index as nat,
                ));
            }
            return;
        }
        if !crate::strutil::str_contains_char(cmd.method.as_str(), '.') {
            result.add_error(mk_err_invalid_method(index, cmd.method.as_str()));
            proof {
                assert(result@.errors =~= old(result)@.errors + spec_command_errors(
                    cmd@,
                    index as nat,
                ));
            }
            return;
        }
        if !self.known_contains(cmd.method.as_str()) {
            let mut sugg = String::from_str("Supported commands: ");
            sugg.append(self.join_known().as_str());
            let mut msg = String::from_str("Unknown CDP command: ");
            msg.append(cmd.method.as_str());
            let e = ValidationError {
                error_type: ValidationErrorType::UnknownCommand,
                message: msg,
                location: loc_cmd(index, method_path(index)),
                suggestion: Some(sugg),
            };
            proof {
                assert(e@.message =~= err_unknown_command(index as nat, cmd@.method).message);
                assert(e@.suggestion->0 =~= err_unknown_command(index as nat, cmd@.method)
                    .suggestion->0);
            }
            result.add_error(e);
            proof {
                assert(result@.errors =~= old(result)@.errors + spec_command_errors(
                    cmd@,
                    index as nat,
                ));
            }
            return;
        }
        match self.schema_get(cmd.method.as_str()) {
            Some(schema) => {
                self.validate_parameters(cmd, schema, index, result);
            },
            None => {
                proof {
                    assert(result@.errors =~= old(result)@.errors + spec_command_errors(
                        cmd@,
                        index as nat,
                    ));
                    assert(result@.warnings =~= old(result)@.warnings + spec_command_warnings(
                        cmd@,
                        index as nat,
                    ));
                }
            },
        }
    }

    /// Check a whole parsed script and collect every finding: the name, the
    /// description, the command list, and each command in order.
    #[verifier::loop_isolation(false)]
    #[verifier::rlimit(60)]
    pub fn validate_script(&self, script: &CdpScript, result: &mut ValidationResult)
        requires
            self.wf(),
        ensures
            final(result)@.errors == old(result)@.errors + spec_script_errors(script@),
            final(result)@.warnings == old(result)@.warnings + spec_script_warnings(script@),
            final(result)@.is_valid == (old(result)@.is_valid && spec_script_errors(
                script@,
            ).len() == 0),
    {
        if script.name.as_str().is_empty() {
            result.add_error(mk_err_name_missing());
        } else if !name_chars_ok(script.name.as_str()) {
            result.add_warning(
                String::from_str(
                    "Script name should only contain alphanumeric characters, hyphens, and underscores",
                ),
            );
        }
        if script.description.as_str().is_empty() {
            result.add_warning(String::from_str("Script description is empty"));
        }
        proof {
            assert(result@.errors =~= old(result)@.errors + spec_head_errors(script@));
            assert(result@.warnings =~= old(result)@.warnings + spec_head_warnings(script@));
        }
        if script.cdp_commands.len() == 0 {
            result.add_error(mk_err_no_commands());
            proof {
                assert(result@.errors =~= old(result)@.errors + spec_script_errors(script@));
                assert(result@.warnings =~= old(result)@.warnings + spec_script_warnings(script@));
            }
            return;
        }
        let n = script.cdp_commands.len();
        let mut i: usize = 0;
        while i < n
            invariant
                i <= n,
                result@.errors == old(result)@.errors + spec_head_errors(script@)
                    + cmd_errors_upto(script@.commands, i as nat),
                result@.warnings == old(result)@.warnings + spec_head_warnings(script@)
                    + cmd_warnings_upto(script@.commands, i as nat),
                result@.is_valid == (old(result)@.is_valid && spec_head_errors(script@).len() == 0
                    && cmd_errors_upto(script@.commands, i as nat).len() == 0),
            decreases n - i,
        {
            proof {
                assert(script@.commands[i as int] == script.cdp_commands@[i as int]@);
            }
            self.validate_command(&script.cdp_commands[i], i, result);
            proof {
                assert(result@.errors =~= old(result)@.errors + spec_head_errors(script@)
                    + cmd_errors_upto(script@.commands, (i + 1) as nat));
                assert(result@.warnings =~= old(result)@.warnings + spec_head_warnings(script@)
                    + cmd_warnings_upto(script@.commands, (i + 1) as nat));
            }
            i = i + 1;
        }
    }
}

impl Default for CdpValidator {
    /// The default validator is the full registry.
    fn default() -> (r: Self)
        ensures
            r.wf(),
    {
        Self::new()
    }
}

// ===== validating a JSON text =====

/// Finding: the text is not valid JSON.
pub open spec fn err_json_syntax(pe: crate::codec::JsonParseV) -> ErrorV {
    ErrorV {
        error_type: ValidationErrorType::JsonSyntax,
        message: "JSON syntax error: "@ + pe.message,
        location: LocV {
            command_index: None,
            field_path: Seq::empty(),
            line: Some(pe.line),
            column: Some(pe.column),
        },
        suggestion: Some("Check for missing commas, brackets, or quotes"@),
    }
}

/// Finding: the text is valid JSON but does not have a script's shape.
pub open spec fn err_script_shape(m: Seq<char>) -> ErrorV {
    ErrorV {
        error_type: ValidationErrorType::JsonSyntax,
        message: "JSON syntax error: "@ + m,
        location: LocV { command_index: None, field_path: Seq::empty(), line: None, column: None },
        suggestion: Some("Check for missing commas, brackets, or quotes"@),
    }
}

/// What validating a JSON text yields: one JsonSyntax finding when the text
/// does not parse as a script, otherwise every finding of the script.
pub open spec fn spec_validate_json(text: Seq<char>) -> VResultV {
    match crate::codec::spec_parse_json(text) {
        Err(pe) => VResultV {
            is_valid: false,
            errors: seq![err_json_syntax(pe)],
            warnings: Seq::empty(),
        },
        Ok(doc) => match crate::codec::spec_script_from_json(doc) {
            Err(m) => VResultV {
                is_valid: false,
                errors: seq![err_script_shape(m)],
                warnings: Seq::empty(),
            },
            Ok(s) => VResultV {
                is_valid: spec_script_errors(s).len() == 0,
                errors: spec_script_errors(s),
                warnings: spec_script_warnings(s),
            },
        },
    }
}

impl CdpValidator {
    /// Validate a script given as JSON text: parse it, decode it, and run
    /// every check of `validate_script` on the result.
    pub fn validate_json(&self, json: &str) -> (r: ValidationResult)
        requires
            self.wf(),
        ensures
            r@.is_valid == spec_validate_json(json@).is_valid,
            r@.errors == spec_validate_json(json@).errors,
            r@.warnings == spec_validate_json(json@).warnings,
    {
        let mut result = ValidationResult::success();
        let doc = match crate::codec::parse_json(json) {
            Ok(doc) => doc,
            Err(e) => {
                let mut msg = String::from_str("JSON syntax error: ");
                msg.append(e.message.as_str());
                let err = ValidationError {
                    error_type: ValidationErrorType::JsonSyntax,
                    message: msg,
                    location: ErrorLocation {
                        command_index: None,
                        field_path: String::new(),
                        line: Some(e.line),
                        column: Some(e.column),
                    },
                    suggestion: Some(
                        String::from_str("Check for missing commas, brackets, or quotes"),
                    ),
                };
                proof {
                    assert(err@.message =~= err_json_syntax(e@).message);
                }
                result.add_error(err);
                proof {
                    assert(result@.errors =~= spec_validate_json(json@).errors);
                    assert(result@.warnings =~= spec_validate_json(json@).warnings);
                }
                return result;
            },
        };
        let script = match crate::codec::script_from_json(&doc) {
            Ok(script) => script,
            Err(m) => {
                let mut msg = String::from_str("JSON syntax error: ");
                msg.append(m.as_str());
                let err = ValidationError {
                    error_type: ValidationErrorType::JsonSyntax,
                    message: msg,
                    location: ErrorLocation {
                        command_index: None,
                        field_path: String::new(),
                        line: None,
                        column: None,
                    },
                    suggestion: Some(
                        String::from_str("Check for missing commas, brackets, or quotes"),
                    ),
                };
                proof {
                    assert(err@.message =~= err_script_shape(m@).message);
                }
                result.add_error(err);
                proof {
                    assert(result@.errors =~= spec_validate_json(json@).errors);
                    assert(result@.warnings =~= spec_validate_json(json@).warnings);
                }
                return result;
            },
        };
        self.validate_script(&script, &mut result);
        proof {
            assert(result@.errors =~= spec_validate_json(json@).errors);
            assert(result@.warnings =~= spec_validate_json(json@).warnings);
        }
        result
    }
}

// ===== laws of the validator =====

/// How many of the first `k` required parameters are absent from `entries`.
pub open spec fn absent_count(
    required: Seq<Seq<char>>,
    entries: Seq<(Seq<char>, JsonV)>,
    k: nat,
) -> int
    decreases k,
{
    if k == 0 {
        0
    } else {
        absent_count(required, entries, (k - 1) as nat) + (
        if obj_has_key(entries, required[k - 1]) {
            0int
        } else {
            1int
        })
    }
}

/// How many of the first `k` entries have a declared type that their
/// non-null value disagrees with.
pub open spec fn mismatch_count(
    entries: Seq<(Seq<char>, JsonV)>,
    types: Seq<(Seq<char>, ParamType)>,
    k: nat,
) -> int
    decreases k,
{
    if k == 0 {
        0
    } else {
        mismatch_count(entries, types, (k - 1) as nat) + (
        match assoc_lookup(types, entries[k - 1].0) {
            Some(expected) => match spec_param_type_of(entries[k - 1].1) {
                Some(actual) => if actual != expected {
                    1int
                } else {
                    0int
                },
                None => 0int,
            },
            None => 0int,
        })
    }
}

/// How many findings in `errs` have category `t`.
pub open spec fn count_kind(errs: Seq<ErrorV>, t: ValidationErrorType) -> int
    decreases errs.len(),
{
    if errs.len() == 0 {
        0
    } else {
        (if errs[0].error_type == t {
            1int
        } else {
            0int
        }) + count_kind(errs.drop_first(), t)
    }
}

/// Counting a category distributes over joined findings.
pub proof fn lemma_count_kind_add(a: Seq<ErrorV>, b: Seq<ErrorV>, t: ValidationErrorType)
    ensures
        count_kind(a + b, t) == count_kind(a, t) + count_kind(b, t),
    decreases a.len(),
{
    if a.len() == 0 {
        assert(a + b =~= b);
    } else {
        assert((a + b).drop_first() =~= a.drop_first() + b);
        lemma_count_kind_add(a.drop_first(), b, t);
    }
}

/// Counting a category of a single finding.
pub proof fn lemma_count_kind_one(e: ErrorV, t: ValidationErrorType)
    ensures
        count_kind(seq![e], t) == if e.error_type == t {
            1int
        } else {
            0int
        },
{
    assert(seq![e].drop_first() =~= Seq::<ErrorV>::empty());
    assert(count_kind(seq![e].drop_first(), t) == 0);
    assert(count_kind(seq![e], t) == (if seq![e][0].error_type == t {
        1int
    } else {
        0int
    }) + count_kind(seq![e].drop_first(), t));
}

/// The required-parameter check reports one MissingParameter per absent
/// required parameter and nothing else.
pub proof fn lemma_missing_upto_counts(
    required: Seq<Seq<char>>,
    entries: Seq<(Seq<char>, JsonV)>,
    i: nat,
    m: Seq<char>,
    k: nat,
)
    requires
        k <= required.len(),
    ensures
        count_kind(missing_upto(required, entries, i, m, k), ValidationErrorType::MissingParameter)
            == absent_count(required, entries, k),
        forall|t: ValidationErrorType| !(t is MissingParameter) ==> count_kind(
            missing_upto(required, entries, i, m, k),
            t,
        ) == 0,
        forall|j: int| 0 <= j < k && !obj_has_key(entries, required[j]) ==> missing_upto(
            required,
            entries,
            i,
            m,
            k,
        ).contains(err_missing_param(i, m, required[j])),
    decreases k,
{
    if k > 0 {
        lemma_missing_upto_counts(required, entries, i, m, (k - 1) as nat);
        let pre = missing_upto(required, entries, i, m, (k - 1) as nat);
        let last = if obj_has_key(entries, required[k - 1]) {
            Seq::<ErrorV>::empty()
        } else {
            seq![err_missing_param(i, m, required[k - 1])]
        };
        assert forall|t: ValidationErrorType| true implies count_kind(pre + last, t) == count_kind(
            pre,
            t,
        ) + count_kind(last, t) by {
            lemma_count_kind_add(pre, last, t);
        }
        if !obj_has_key(entries, required[k - 1]) {
            lemma_count_kind_one(err_missing_param(i, m, required[k - 1]), ValidationErrorType::MissingParameter);
            assert((pre + last)[pre.len() as int] == err_missing_param(i, m, required[k - 1]));
        }
        assert forall|t: ValidationErrorType| !(t is MissingParameter) implies count_kind(
            missing_upto(required, entries, i, m, k),
            t,
        ) == 0 by {
            lemma_count_kind_add(pre, last, t);
            if !obj_has_key(entries, required[k - 1]) {
                lemma_count_kind_one(err_missing_param(i, m, required[k - 1]), t);
            }
        }
        assert forall|j: int|
            0 <= j < k && !obj_has_key(entries, required[j]) implies missing_upto(
            required,
            entries,
            i,
            m,
            k,
        ).contains(err_missing_param(i, m, required[j])) by {
            if j < k - 1 {
                let w = choose|w: int|
                    0 <= w < pre.len() && pre[w] == err_missing_param(i, m, required[j]);
                assert((pre + last)[w] == err_missing_param(i, m, required[j]));
            } else {
                assert((pre + last)[pre.len() as int] == err_missing_param(i, m, required[j]));
            }
        }
    }
}

/// The type check reports one TypeMismatch per declared parameter whose
/// non-null value disagrees, nothing else, and nothing for null values.
pub proof fn lemma_type_errs_upto_counts(
    entries: Seq<(Seq<char>, JsonV)>,
    types: Seq<(Seq<char>, ParamType)>,
    i: nat,
    m: Seq<char>,
    k: nat,
)
    requires
        k <= entries.len(),
    ensures
        count_kind(type_errs_upto(entries, types, i, m, k), ValidationErrorType::TypeMismatch)
            == mismatch_count(entries, types, k),
        forall|t: ValidationErrorType| !(t is TypeMismatch) ==> count_kind(
            type_errs_upto(entries, types, i, m, k),
            t,
        ) == 0,
        forall|j: int|
            0 <= j < k && assoc_lookup(types, entries[j].0) is Some && spec_param_type_of(
                entries[j].1,
            ) is Some && spec_param_type_of(entries[j].1)->0 != assoc_lookup(types, entries[j].0)->0
                ==> type_errs_upto(entries, types, i, m, k).contains(
                err_type_mismatch(
                    i,
                    m,
                    entries[j].0,
                    assoc_lookup(types, entries[j].0)->0,
                    spec_param_type_of(entries[j].1)->0,
                ),
            ),
    decreases k,
{
    if k > 0 {
        lemma_type_errs_upto_counts(entries, types, i, m, (k - 1) as nat);
        let pre = type_errs_upto(entries, types, i, m, (k - 1) as nat);
        let last: Seq<ErrorV> = match assoc_lookup(types, entries[k - 1].0) {
            Some(expected) => match spec_param_type_of(entries[k - 1].1) {
                Some(actual) => if actual != expected {
                    seq![err_type_mismatch(i, m, entries[k - 1].0, expected, actual)]
                } else {
                    Seq::empty()
                },
                None => Seq::empty(),
            },
            None => Seq::empty(),
        };
        assert(type_errs_upto(entries, types, i, m, k) == pre + last);
        assert forall|t: ValidationErrorType| true implies count_kind(pre + last, t) == count_kind(
            pre,
            t,
        ) + count_kind(last, t) by {
            lemma_count_kind_add(pre, last, t);
        }
        assert forall|t: ValidationErrorType| true implies count_kind(last, t) == (
        if last.len() == 1 && last[0].error_type == t {
            1int
        } else {
            0int
        }) by {
            if last.len() == 1 {
                lemma_count_kind_one(last[0], t);
                assert(seq![last[0]] =~= last);
            }
        }
        assert forall|j: int|
            0 <= j < k && assoc_lookup(types, entries[j].0) is Some && spec_param_type_of(
                entries[j].1,
            ) is Some && spec_param_type_of(entries[j].1)->0 != assoc_lookup(types, entries[j].0)->0
                implies type_errs_upto(entries, types, i, m, k).contains(
                err_type_mismatch(
                    i,
                    m,
                    entries[j].0,
                    assoc_lookup(types, entries[j].0)->0,
                    spec_param_type_of(entries[j].1)->0,
                ),
            ) by {
            let e = err_type_mismatch(
                i,
                m,
                entries[j].0,
                assoc_lookup(types, entries[j].0)->0,
                spec_param_type_of(entries[j].1)->0,
            );
            if j < k - 1 {
                let w = choose|w: int| 0 <= w < pre.len() && pre[w] == e;
                assert((pre + last)[w] == e);
            } else {
                assert((pre + last)[pre.len() as int] == e);
            }
        }
    }
}

/// Law: a script with a name but no commands fails with exactly one
/// finding, a MissingField located at the commands field.
pub proof fn lemma_no_commands_single_error(s: ScriptV)
    requires
        s.name.len() > 0,
        s.commands.len() == 0,
    ensures
        spec_script_errors(s).len() == 1,
        spec_script_errors(s)[0] == err_no_commands(),
        spec_script_errors(s)[0].error_type is MissingField,
        spec_script_errors(s)[0].location.field_path == "cdp_commands"@,
{
    assert(spec_head_errors(s) =~= Seq::<ErrorV>::empty());
}

/// Law: a well-formed method the registry does not know yields exactly one
/// finding, an UnknownCommand whose suggestion lists the known method set.
pub proof fn lemma_unknown_command_single_error(c: CommandV, i: nat)
    requires
        c.method.len() > 0,
        crate::strutil::seq_has_char(c.method, '.'),
        !spec_known_commands().contains(c.method),
    ensures
        spec_command_errors(c, i).len() == 1,
        spec_command_errors(c, i)[0] == err_unknown_command(i, c.method),
        spec_command_errors(c, i)[0].error_type is UnknownCommand,
        spec_command_errors(c, i)[0].suggestion == Some(
            "Supported commands: "@ + spec_known_joined(),
        ),
{
}

/// Law: with object parameters, every absent required parameter of the
/// schema is reported by its own MissingParameter finding naming it, and the
/// MissingParameter findings number exactly the absent required parameters.
pub proof fn lemma_missing_parameters_reported(c: CommandV, sc: SchemaV, i: nat)
    requires
        c.params is Obj,
    ensures
        forall|j: int|
            0 <= j < sc.required_params.len() && !obj_has_key(
                c.params->Obj_0,
                sc.required_params[j],
            ) ==> spec_param_errors(c, sc, i).contains(
                err_missing_param(i, c.method, sc.required_params[j]),
            ),
        count_kind(spec_param_errors(c, sc, i), ValidationErrorType::MissingParameter)
            == absent_count(sc.required_params, c.params->Obj_0, sc.required_params.len()),
{
    let entries = c.params->Obj_0;
    let missing = missing_upto(sc.required_params, entries, i, c.method, sc.required_params.len());
    let tymis = type_errs_upto(entries, sc.param_types, i, c.method, entries.len());
    lemma_missing_upto_counts(sc.required_params, entries, i, c.method, sc.required_params.len());
    lemma_type_errs_upto_counts(entries, sc.param_types, i, c.method, entries.len());
    lemma_count_kind_add(missing, tymis, ValidationErrorType::MissingParameter);
    assert forall|j: int|
        0 <= j < sc.required_params.len() && !obj_has_key(entries, sc.required_params[j]) implies
        spec_param_errors(c, sc, i).contains(
        err_missing_param(i, c.method, sc.required_params[j]),
    ) by {
        let e = err_missing_param(i, c.method, sc.required_params[j]);
        let w = choose|w: int| 0 <= w < missing.len() && missing[w] == e;
        assert((missing + tymis)[w] == e);
    }
}

/// Law: with object parameters, every declared parameter whose non-null
/// value has the wrong JSON type is reported by its own TypeMismatch
/// finding, the TypeMismatch findings number exactly those parameters, and a
/// null value never adds one.
pub proof fn lemma_type_mismatches_reported(c: CommandV, sc: SchemaV, i: nat)
    requires
        c.params is Obj,
    ensures
        forall|j: int|
            0 <= j < c.params->Obj_0.len() && assoc_lookup(
                sc.param_types,
                c.params->Obj_0[j].0,
            ) is Some && spec_param_type_of(c.params->Obj_0[j].1) is Some && spec_param_type_of(
                c.params->Obj_0[j].1,
            )->0 != assoc_lookup(sc.param_types, c.params->Obj_0[j].0)->0 ==> spec_param_errors(
                c,
                sc,
                i,
            ).contains(
                err_type_mismatch(
                    i,
                    c.method,
                    c.params->Obj_0[j].0,
                    assoc_lookup(sc.param_types, c.params->Obj_0[j].0)->0,
                    spec_param_type_of(c.params->Obj_0[j].1)->0,
                ),
            ),
        count_kind(spec_param_errors(c, sc, i), ValidationErrorType::TypeMismatch)
            == mismatch_count(c.params->Obj_0, sc.param_types, c.params->Obj_0.len()),
        forall|j: int|
            0 <= j < c.params->Obj_0.len() && c.params->Obj_0[j].1 is Null ==> mismatch_count(
                c.params->Obj_0,
                sc.param_types,
                (j + 1) as nat,
            ) == mismatch_count(c.params->Obj_0, sc.param_types, j as nat),
{
    let entries = c.params->Obj_0;
    let missing = missing_upto(sc.required_params, entries, i, c.method, sc.required_params.len());
    let tymis = type_errs_upto(entries, sc.param_types, i, c.method, entries.len());
    lemma_missing_upto_counts(sc.required_params, entries, i, c.method, sc.required_params.len());
    lemma_type_errs_upto_counts(entries, sc.param_types, i, c.method, entries.len());
    lemma_count_kind_add(missing, tymis, ValidationErrorType::TypeMismatch);
    assert forall|j: int|
        0 <= j < entries.len() && assoc_lookup(sc.param_types, entries[j].0) is Some
            && spec_param_type_of(entries[j].1) is Some && spec_param_type_of(entries[j].1)->0
            != assoc_lookup(sc.param_types, entries[j].0)->0 implies spec_param_errors(
        c,
        sc,
        i,
    ).contains(
        err_type_mismatch(
            i,
            c.method,
            entries[j].0,
            assoc_lookup(sc.param_types, entries[j].0)->0,
            spec_param_type_of(entries[j].1)->0,
        ),
    ) by {
        let e = err_type_mismatch(
            i,
            c.method,
            entries[j].0,
            assoc_lookup(sc.param_types, entries[j].0)->0,
            spec_param_type_of(entries[j].1)->0,
        );
        let w = choose|w: int| 0 <= w < tymis.len() && tymis[w] == e;
        assert((missing + tymis)[missing.len() + w] == e);
    }
}

} // verus!
