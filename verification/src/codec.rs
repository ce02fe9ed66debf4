//! Reading and writing scripts as JSON documents.
//!
//! The text-to-tree parse goes through serde_json behind a trusted boundary;
//! everything from the tree to a `CdpScript` and back is verified.  A decode
//! is strict about shape: the fields a script needs must be there with the
//! right types, unknown fields pass through unharmed, and absent optional
//! fields stay absent on re-serialization.

use vstd::prelude::*;

use crate::json::{jv, jv_entries, jv_list, obj_get, obj_has_key, obj_lookup, JsonV, JsonValue};
use crate::script::{cmds_view, strs_view, CdpCommand, CdpScript, CommandV, ScriptV};

verus! {

/// Position and message of a JSON parse failure.
#[derive(Debug)]
pub struct JsonParseError {
    /// Line of the failure, 1-based.
    pub line: usize,
    /// Column of the failure, 1-based.
    pub column: usize,
    /// What went wrong.
    pub message: String,
}

/// Mathematical view of a parse failure.
pub struct JsonParseV {
    pub line: int,
    pub column: int,
    pub message: Seq<char>,
}

impl View for JsonParseError {
    type V = JsonParseV;

    open spec fn view(&self) -> JsonParseV {
        JsonParseV { line: self.line as int, column: self.column as int, message: self.message@ }
    }
}

/// serde_json's document value, declared so verified code can carry it.
#[verifier::external_type_specification]
#[verifier::external_body]
pub struct ExSerdeValue(serde_json::Value);

/// The JSON tree that a serde_json document holds.
pub uninterp spec fn value_tree(v: serde_json::Value) -> JsonV;

/// What parsing a JSON text yields: the document tree on success, the
/// position and message of the failure otherwise.
pub uninterp spec fn spec_parse_json(text: Seq<char>) -> Result<JsonV, JsonParseV>;

/// Relies on serde_json::from_str::<serde_json::Value>: the parse depends on
/// the text alone; on failure, Error::line and Error::column give the
/// position and its Display rendering the message.
#[verifier::external_body]
fn parse_document(text: &str) -> (r: Result<serde_json::Value, JsonParseError>)
    ensures
        match r {
            Ok(v) => spec_parse_json(text@) matches Ok(t) && value_tree(v) == t,
            Err(e) => spec_parse_json(text@) matches Err(t) && e@ == t,
        },
{
    match serde_json::from_str::<serde_json::Value>(text) {
        Ok(v) => Ok(v),
        Err(e) => Err(
            JsonParseError { line: e.line(), column: e.column(), message: e.to_string() },
        ),
    }
}

/// Relies on the variants of serde_json::Value: each converts one-for-one to
/// the crate's tree; a number converts through its Display rendering.
#[verifier::external_body]
fn convert_document(v: serde_json::Value) -> (r: JsonValue)
    ensures
        r@ == value_tree(v),
{
    match v {
        serde_json::Value::Null => JsonValue::Null,
        serde_json::Value::Bool(b) => JsonValue::Bool(b),
        serde_json::Value::Number(n) => JsonValue::Num(n.to_string()),
        serde_json::Value::String(s) => JsonValue::Str(s),
        serde_json::Value::Array(a) => JsonValue::Arr(
            a.into_iter().map(convert_document).collect(),
        ),
        serde_json::Value::Object(m) => JsonValue::Obj(
            m.into_iter().map(|(k, x)| (k, convert_document(x))).collect(),
        ),
    }
}

/// Parse a JSON text into the crate's document tree.
pub fn parse_json(text: &str) -> (r: Result<JsonValue, JsonParseError>)
    ensures
        match r {
            Ok(v) => spec_parse_json(text@) matches Ok(t) && v@ == t,
            Err(e) => spec_parse_json(text@) matches Err(t) && e@ == t,
        },
{
    match parse_document(text) {
        Ok(doc) => Ok(convert_document(doc)),
        Err(e) => Err(e),
    }
}

// ===== decoding a script from a document tree =====

/// Decode failure: the document is not a JSON object.
pub open spec fn msg_not_object() -> Seq<char> {
    "invalid script document: expected a JSON object"@
}

/// Decode failure: a command is not a JSON object.
pub open spec fn msg_command_not_object() -> Seq<char> {
    "invalid script document: each command must be a JSON object"@
}

/// Decode failure: a required field is absent.
pub open spec fn msg_missing_field(name: Seq<char>) -> Seq<char> {
    "invalid script document: missing field '"@ + name + "'"@
}

/// Decode failure: a field holds the wrong type of value.
pub open spec fn msg_bad_field(name: Seq<char>) -> Seq<char> {
    "invalid script document: field '"@ + name + "' has the wrong type"@
}

/// An optional string field: absent or null decode to nothing.
pub open spec fn spec_opt_str_field(
    entries: Seq<(Seq<char>, JsonV)>,
    name: Seq<char>,
) -> Result<Option<Seq<char>>, Seq<char>> {
    match obj_lookup(entries, name) {
        None => Ok(None),
        Some(v) => match v {
            JsonV::Str(s) => Ok(Some(s)),
            JsonV::Null => Ok(None),
            _ => Err(msg_bad_field(name)),
        },
    }
}

/// A required string field.
pub open spec fn spec_req_str_field(
    entries: Seq<(Seq<char>, JsonV)>,
    name: Seq<char>,
) -> Result<Seq<char>, Seq<char>> {
    match obj_lookup(entries, name) {
        None => Err(msg_missing_field(name)),
        Some(v) => match v {
            JsonV::Str(s) => Ok(s),
            _ => Err(msg_bad_field(name)),
        },
    }
}

/// The first `k` items decoded as strings.
pub open spec fn strs_upto(items: Seq<JsonV>, k: nat) -> Result<Seq<Seq<char>>, Seq<char>>
    decreases k,
{
    if k == 0 {
        Ok(Seq::empty())
    } else {
        match strs_upto(items, (k - 1) as nat) {
            Ok(pre) => match items[k - 1] {
                JsonV::Str(s) => Ok(pre.push(s)),
                _ => Err(msg_bad_field("tags"@)),
            },
            Err(e) => Err(e),
        }
    }
}

/// The `tags` field: absent decodes to the empty list.
pub open spec fn spec_tags_field(entries: Seq<(Seq<char>, JsonV)>) -> Result<
    Seq<Seq<char>>,
    Seq<char>,
> {
    match obj_lookup(entries, "tags"@) {
        None => Ok(Seq::empty()),
        Some(v) => match v {
            JsonV::Arr(items) => strs_upto(items, items.len()),
            _ => Err(msg_bad_field("tags"@)),
        },
    }
}

/// Decode one command from a document tree.
pub open spec fn spec_command_from_json(v: JsonV) -> Result<CommandV, Seq<char>> {
    match v {
        JsonV::Obj(entries) => match spec_req_str_field(entries, "method"@) {
            Ok(method) => match obj_lookup(entries, "params"@) {
                None => Err(msg_missing_field("params"@)),
                Some(params) => match spec_opt_str_field(entries, "save_as"@) {
                    Ok(save_as) => match spec_opt_str_field(entries, "description"@) {
                        Ok(description) => Ok(CommandV { method, params, save_as, description }),
                        Err(e) => Err(e),
                    },
                    Err(e) => Err(e),
                },
            },
            Err(e) => Err(e),
        },
        _ => Err(msg_command_not_object()),
    }
}

/// The first `k` items decoded as commands; the earliest failure wins.
pub open spec fn cmds_upto(items: Seq<JsonV>, k: nat) -> Result<Seq<CommandV>, Seq<char>>
    decreases k,
{
    if k == 0 {
        Ok(Seq::empty())
    } else {
        match cmds_upto(items, (k - 1) as nat) {
            Ok(pre) => match spec_command_from_json(items[k - 1]) {
                Ok(c) => Ok(pre.push(c)),
                Err(e) => Err(e),
            },
            Err(e) => Err(e),
        }
    }
}

/// The `cdp_commands` field.
pub open spec fn spec_commands_field(entries: Seq<(Seq<char>, JsonV)>) -> Result<
    Seq<CommandV>,
    Seq<char>,
> {
    match obj_lookup(entries, "cdp_commands"@) {
        None => Err(msg_missing_field("cdp_commands"@)),
        Some(v) => match v {
            JsonV::Arr(items) => cmds_upto(items, items.len()),
            _ => Err(msg_bad_field("cdp_commands"@)),
        },
    }
}

/// Decode a whole script from a document tree.  Unknown fields are ignored;
/// absent optional fields decode to nothing.
pub open spec fn spec_script_from_json(v: JsonV) -> Result<ScriptV, Seq<char>> {
    match v {
        JsonV::Obj(entries) => match spec_req_str_field(entries, "name"@) {
            Ok(name) => match spec_req_str_field(entries, "description"@) {
                Ok(description) => match spec_opt_str_field(entries, "created"@) {
                    Ok(created) => match spec_opt_str_field(entries, "author"@) {
                        Ok(author) => match spec_tags_field(entries) {
                            Ok(tags) => match spec_commands_field(entries) {
                                Ok(commands) => Ok(
                                    ScriptV {
                                        name,
                                        description,
                                        created,
                                        author,
                                        tags,
                                        commands,
                                    },
                                ),
                                Err(e) => Err(e),
                            },
                            Err(e) => Err(e),
                        },
                        Err(e) => Err(e),
                    },
                    Err(e) => Err(e),
                },
                Err(e) => Err(e),
            },
            Err(e) => Err(e),
        },
        _ => Err(msg_not_object()),
    }
}

/// Once a string item fails to decode, every longer prefix fails the same way.
pub proof fn lemma_strs_upto_err(items: Seq<JsonV>, i: nat, k: nat)
    requires
        i < k <= items.len(),
        strs_upto(items, i) is Ok,
        !(items[i as int] is Str),
    ensures
        strs_upto(items, k) is Err,
        strs_upto(items, k)->Err_0 == msg_bad_field("tags"@),
    decreases k,
{
    if k == i + 1 {
    } else {
        lemma_strs_upto_err(items, i, (k - 1) as nat);
    }
}

/// Once a command fails to decode after a clean prefix, every longer prefix
/// fails with that command's message.
pub proof fn lemma_cmds_upto_err(items: Seq<JsonV>, i: nat, k: nat)
    requires
        i < k <= items.len(),
        cmds_upto(items, i) is Ok,
        spec_command_from_json(items[i as int]) is Err,
    ensures
        cmds_upto(items, k) is Err,
        cmds_upto(items, k)->Err_0 == spec_command_from_json(items[i as int])->Err_0,
    decreases k,
{
    if k == i + 1 {
    } else {
        lemma_cmds_upto_err(items, i, (k - 1) as nat);
    }
}

// ===== the executable decoder =====

fn mk_msg_missing_field(name: &str) -> (r: String)
    ensures
        r@ == msg_missing_field(name@),
{
    let mut m = String::from_str("invalid script document: missing field '");
    m.append(name);
    m.append("'");
    proof {
        assert(m@ =~= msg_missing_field(name@));
    }
    m
}

fn mk_msg_bad_field(name: &str) -> (r: String)
    ensures
        r@ == msg_bad_field(name@),
{
    let mut m = String::from_str("invalid script document: field '");
    m.append(name);
    m.append("' has the wrong type");
    proof {
        assert(m@ =~= msg_bad_field(name@));
    }
    m
}

/// Decode an optional string field of `entries`.
fn opt_str_field(entries: &Vec<(String, JsonValue)>, name: &str) -> (r: Result<
    Option<String>,
    String,
>)
    ensures
        match r {
            Ok(o) => spec_opt_str_field(jv_entries(entries@), name@) == Ok::<_, Seq<char>>(
                crate::script::opt_view(o),
            ),
            Err(m) => spec_opt_str_field(jv_entries(entries@), name@) matches Err(em) && m@ == em,
        },
{
    match obj_get(entries, name) {
        None => Ok(None),
        Some(v) => match v {
            JsonValue::Str(s) => Ok(Some(s.clone())),
            JsonValue::Null => Ok(None),
            _ => Err(mk_msg_bad_field(name)),
        },
    }
}

/// Decode a required string field of `entries`.
fn req_str_field(entries: &Vec<(String, JsonValue)>, name: &str) -> (r: Result<String, String>)
    ensures
        match r {
            Ok(s) => spec_req_str_field(jv_entries(entries@), name@) == Ok::<_, Seq<char>>(s@),
            Err(m) => spec_req_str_field(jv_entries(entries@), name@) matches Err(em) && m@ == em,
        },
{
    match obj_get(entries, name) {
        None => Err(mk_msg_missing_field(name)),
        Some(v) => match v {
            JsonValue::Str(s) => Ok(s.clone()),
            _ => Err(mk_msg_bad_field(name)),
        },
    }
}

/// Decode one command from a document tree.
pub fn command_from_json(v: &JsonValue) -> (r: Result<CdpCommand, String>)
    ensures
        match r {
            Ok(c) => spec_command_from_json(jv(*v)) == Ok::<_, Seq<char>>(c@),
            Err(m) => spec_command_from_json(jv(*v)) matches Err(em) && m@ == em,
        },
{
    match v {
        JsonValue::Obj(entries) => {
            let method = match req_str_field(entries, "method") {
                Ok(s) => s,
                Err(m) => {
                    return Err(m);
                },
            };
            let params = match obj_get(entries, "params") {
                Some(p) => p.deep_clone(),
                None => {
                    return Err(mk_msg_missing_field("params"));
                },
            };
            let save_as = match opt_str_field(entries, "save_as") {
                Ok(o) => o,
                Err(m) => {
                    return Err(m);
                },
            };
            let description = match opt_str_field(entries, "description") {
                Ok(o) => o,
                Err(m) => {
                    return Err(m);
                },
            };
            Ok(CdpCommand { method, params, save_as, description })
        },
        _ => Err(String::from_str("invalid script document: each command must be a JSON object")),
    }
}

/// Decode a whole script from a document tree.
#[verifier::loop_isolation(false)]
pub fn script_from_json(v: &JsonValue) -> (r: Result<CdpScript, String>)
    ensures
        match r {
            Ok(s) => spec_script_from_json(jv(*v)) == Ok::<_, Seq<char>>(s@),
            Err(m) => spec_script_from_json(jv(*v)) matches Err(em) && m@ == em,
        },
{
    match v {
        JsonValue::Obj(entries) => {
            let name = match req_str_field(entries, "name") {
                Ok(s) => s,
                Err(m) => {
                    return Err(m);
                },
            };
            let description = match req_str_field(entries, "description") {
                Ok(s) => s,
                Err(m) => {
                    return Err(m);
                },
            };
            let created = match opt_str_field(entries, "created") {
                Ok(o) => o,
                Err(m) => {
                    return Err(m);
                },
            };
            let author = match opt_str_field(entries, "author") {
                Ok(o) => o,
                Err(m) => {
                    return Err(m);
                },
            };
            let tags = match obj_get(entries, "tags") {
                None => Vec::new(),
                Some(tv) => match tv {
                    JsonValue::Arr(items) => {
                        let mut out: Vec<String> = Vec::new();
                        let mut i: usize = 0;
                        while i < items.len()
                            invariant
                                i <= items@.len(),
                                strs_upto(jv_list(items@), i as nat) is Ok,
                                strs_upto(jv_list(items@), i as nat)->Ok_0 == strs_view(out@),
                            decreases items@.len() - i,
                        {
                            match &items[i] {
                                JsonValue::Str(s) => {
                                    out.push(s.clone());
                                    proof {
                                        assert(jv_list(items@)[i as int] == jv(items@[i as int]));
                                        assert(strs_upto(jv_list(items@), (i + 1) as nat)->Ok_0
                                            =~= strs_view(out@));
                                    }
                                },
                                _ => {
                                    proof {
                                        assert(jv_list(items@)[i as int] == jv(items@[i as int]));
                                        lemma_strs_upto_err(jv_list(items@), i as nat,
                                            items@.len() as nat);
                                        assert(strs_upto(jv_list(items@), items@.len() as nat)
                                            is Err);
                                        assert(strs_upto(jv_list(items@), items@.len() as nat)
                                            ->Err_0 == msg_bad_field("tags"@));
                                    }
                                    return Err(mk_msg_bad_field("tags"));
                                },
                            }
                            i = i + 1;
                        }
                        out
                    },
                    _ => {
                        return Err(mk_msg_bad_field("tags"));
                    },
                },
            };
            let cdp_commands = match obj_get(entries, "cdp_commands") {
                None => {
                    return Err(mk_msg_missing_field("cdp_commands"));
                },
                Some(cv) => match cv {
                    JsonValue::Arr(items) => {
                        let mut out: Vec<CdpCommand> = Vec::new();
                        let mut i: usize = 0;
                        while i < items.len()
                            invariant
                                i <= items@.len(),
                                cmds_upto(jv_list(items@), i as nat) is Ok,
                                cmds_upto(jv_list(items@), i as nat)->Ok_0 == cmds_view(out@),
                            decreases items@.len() - i,
                        {
                            proof {
                                assert(jv_list(items@)[i as int] == jv(items@[i as int]));
                            }
                            match command_from_json(&items[i]) {
                                Ok(c) => {
                                    out.push(c);
                                    proof {
                                        assert(cmds_upto(jv_list(items@), (i + 1) as nat)->Ok_0
                                            =~= cmds_view(out@));
                                    }
                                },
                                Err(m) => {
                                    proof {
                                        assert(cmds_upto(jv_list(items@), items@.len() as nat)
                                            is Err) by {
                                            lemma_cmds_upto_err(jv_list(items@), i as nat,
                                                items@.len() as nat);
                                        }
                                        assert(cmds_upto(jv_list(items@), items@.len() as nat)
                                            ->Err_0 == m@) by {
                                            lemma_cmds_upto_err(jv_list(items@), i as nat,
                                                items@.len() as nat);
                                        }
                                    }
                                    return Err(m);
                                },
                            }
                            i = i + 1;
                        }
                        out
                    },
                    _ => {
                        return Err(mk_msg_bad_field("cdp_commands"));
                    },
                },
            };
            let s = CdpScript { name, description, created, author, tags, cdp_commands };
            proof {
                assert(strs_view(s.tags@) =~= spec_tags_field(jv_entries(entries@))->Ok_0);
                assert(cmds_view(s.cdp_commands@) =~= spec_commands_field(
                    jv_entries(entries@),
                )->Ok_0);
            }
            Ok(s)
        },
        _ => Err(String::from_str("invalid script document: expected a JSON object")),
    }
}

// ===== encoding a script as a document tree =====

/// The JSON items of a list of strings.
pub open spec fn strs_to_json(tags: Seq<Seq<char>>) -> Seq<JsonV> {
    Seq::new(
        tags.len(),
        |i: int|
            if 0 <= i < tags.len() {
                JsonV::Str(tags[i])
            } else {
                JsonV::Null
            },
    )
}

/// The document tree of one command.  Absent optional fields are omitted.
pub open spec fn spec_command_to_json(c: CommandV) -> JsonV {
    JsonV::Obj(
        seq![("method"@, JsonV::Str(c.method)), ("params"@, c.params)] + (match c.save_as {
            Some(s) => seq![("save_as"@, JsonV::Str(s))],
            None => Seq::empty(),
        }) + (match c.description {
            Some(s) => seq![("description"@, JsonV::Str(s))],
            None => Seq::empty(),
        }),
    )
}

/// The JSON items of a list of commands.
pub open spec fn cmds_to_json(cmds: Seq<CommandV>) -> Seq<JsonV> {
    Seq::new(
        cmds.len(),
        |i: int|
            if 0 <= i < cmds.len() {
                spec_command_to_json(cmds[i])
            } else {
                JsonV::Null
            },
    )
}

/// The document tree of a whole script.  Absent optional fields and an empty
/// tag list are omitted, not written as null.
pub open spec fn spec_script_to_json(s: ScriptV) -> JsonV {
    JsonV::Obj(
        seq![("name"@, JsonV::Str(s.name)), ("description"@, JsonV::Str(s.description))] + (
        match s.created {
            Some(c) => seq![("created"@, JsonV::Str(c))],
            None => Seq::empty(),
        }) + (match s.author {
            Some(a) => seq![("author"@, JsonV::Str(a))],
            None => Seq::empty(),
        }) + (if s.tags.len() > 0 {
            seq![("tags"@, JsonV::Arr(strs_to_json(s.tags)))]
        } else {
            Seq::empty()
        }) + seq![("cdp_commands"@, JsonV::Arr(cmds_to_json(s.commands)))],
    )
}

/// Encode one command as a document tree.
pub fn command_to_json(c: &CdpCommand) -> (r: JsonValue)
    ensures
        r@ == spec_command_to_json(c@),
{
    let mut entries: Vec<(String, JsonValue)> = Vec::new();
    entries.push((String::from_str("method"), JsonValue::Str(c.method.clone())));
    entries.push((String::from_str("params"), c.params.deep_clone()));
    match &c.save_as {
        Some(s) => {
            entries.push((String::from_str("save_as"), JsonValue::Str(s.clone())));
        },
        None => {},
    }
    match &c.description {
        Some(s) => {
            entries.push((String::from_str("description"), JsonValue::Str(s.clone())));
        },
        None => {},
    }
    let r = JsonValue::Obj(entries);
    proof {
        let ev = jv_entries(entries@);
        let sv = spec_command_to_json(c@)->Obj_0;
        assert(ev.len() == sv.len());
        assert forall|i: int| 0 <= i < ev.len() implies ev[i] == sv[i] by {
            assert(ev[i] == (entries@[i].0@, jv(entries@[i].1)));
        }
        assert(ev =~= sv);
    }
    r
}

/// Encode a whole script as a document tree.
#[verifier::loop_isolation(false)]
pub fn script_to_json(s: &CdpScript) -> (r: JsonValue)
    ensures
        r@ == spec_script_to_json(s@),
{
    let mut entries: Vec<(String, JsonValue)> = Vec::new();
    entries.push((String::from_str("name"), JsonValue::Str(s.name.clone())));
    entries.push((String::from_str("description"), JsonValue::Str(s.description.clone())));
    match &s.created {
        Some(c) => {
            entries.push((String::from_str("created"), JsonValue::Str(c.clone())));
        },
        None => {},
    }
    match &s.author {
        Some(a) => {
            entries.push((String::from_str("author"), JsonValue::Str(a.clone())));
        },
        None => {},
    }
    if s.tags.len() > 0 {
        let mut items: Vec<JsonValue> = Vec::new();
        let mut i: usize = 0;
        while i < s.tags.len()
            invariant
                i <= s.tags@.len(),
                jv_list(items@) == strs_to_json(strs_view(s.tags@)).take(i as int),
            decreases s.tags@.len() - i,
        {
            items.push(JsonValue::Str(s.tags[i].clone()));
            proof {
                assert(jv_list(items@) =~= strs_to_json(strs_view(s.tags@)).take(i + 1));
            }
            i = i + 1;
        }
        proof {
            assert(jv_list(items@) =~= strs_to_json(strs_view(s.tags@)));
        }
        entries.push((String::from_str("tags"), JsonValue::Arr(items)));
    }
    let mut cmd_items: Vec<JsonValue> = Vec::new();
    let mut i: usize = 0;
    while i < s.cdp_commands.len()
        invariant
            i <= s.cdp_commands@.len(),
            jv_list(cmd_items@) == cmds_to_json(cmds_view(s.cdp_commands@)).take(i as int),
        decreases s.cdp_commands@.len() - i,
    {
        cmd_items.push(command_to_json(&s.cdp_commands[i]));
        proof {
            assert(jv_list(cmd_items@) =~= cmds_to_json(cmds_view(s.cdp_commands@)).take(i + 1));
        }
        i = i + 1;
    }
    proof {
        assert(jv_list(cmd_items@) =~= cmds_to_json(cmds_view(s.cdp_commands@)));
    }
    entries.push((String::from_str("cdp_commands"), JsonValue::Arr(cmd_items)));
    let r = JsonValue::Obj(entries);
    proof {
        let ev = jv_entries(entries@);
        let sv = spec_script_to_json(s@)->Obj_0;
        assert(ev.len() == sv.len());
        assert forall|k: int| 0 <= k < ev.len() implies ev[k] == sv[k] by {
            assert(ev[k] == (entries@[k].0@, jv(entries@[k].1)));
        }
        assert(ev =~= sv);
    }
    r
}

// ===== the round-trip law =====

/// A lookup over joined entries takes the left value when the left part has
/// the key, the right value otherwise.
pub proof fn lemma_obj_lookup_append(
    a: Seq<(Seq<char>, JsonV)>,
    b: Seq<(Seq<char>, JsonV)>,
    key: Seq<char>,
)
    ensures
        obj_lookup(a + b, key) == (match obj_lookup(a, key) {
            Some(v) => Some(v),
            None => obj_lookup(b, key),
        }),
    decreases a.len(),
{
    if a.len() == 0 {
        assert(a + b =~= b);
    } else {
        assert((a + b).drop_first() =~= a.drop_first() + b);
        lemma_obj_lookup_append(a.drop_first(), b, key);
    }
}

/// Decoding the items of an encoded string list gives the list back.
proof fn lemma_strs_round_trip(tags: Seq<Seq<char>>, k: nat)
    requires
        k <= tags.len(),
    ensures
        strs_upto(strs_to_json(tags), k) is Ok,
        strs_upto(strs_to_json(tags), k)->Ok_0 == tags.take(k as int),
    decreases k,
{
    if k == 0 {
        assert(tags.take(0) =~= Seq::<Seq<char>>::empty());
    } else {
        lemma_strs_round_trip(tags, (k - 1) as nat);
        assert(strs_upto(strs_to_json(tags), k)->Ok_0 =~= tags.take(k as int));
    }
}

/// Round trip of one command: decoding its encoding yields it unchanged.
pub proof fn lemma_command_round_trip(c: CommandV)
    ensures
        spec_command_from_json(spec_command_to_json(c)) == Ok::<CommandV, Seq<char>>(c),
{
    reveal_strlit("method");
    reveal_strlit("params");
    reveal_strlit("save_as");
    reveal_strlit("description");
    reveal_with_fuel(crate::json::obj_lookup, 5);
    let e1 = seq![("method"@, JsonV::Str(c.method)), ("params"@, c.params)];
    let e2 = match c.save_as {
        Some(s) => seq![("save_as"@, JsonV::Str(s))],
        None => Seq::<(Seq<char>, JsonV)>::empty(),
    };
    let e3 = match c.description {
        Some(s) => seq![("description"@, JsonV::Str(s))],
        None => Seq::<(Seq<char>, JsonV)>::empty(),
    };
    let e = e1 + e2 + e3;
    assert("method"@.len() == 6 && "params"@.len() == 6 && "save_as"@.len() == 7
        && "description"@.len() == 11);
    assert("method"@[0] == 'm' && "params"@[0] == 'p');
    assert("method"@ != "params"@);
    assert("save_as"@ != "method"@ && "save_as"@ != "params"@ && "save_as"@ != "description"@);
    assert("description"@ != "method"@ && "description"@ != "params"@);
    lemma_obj_lookup_append(e1 + e2, e3, "method"@);
    lemma_obj_lookup_append(e1, e2, "method"@);
    assert(obj_lookup(e1, "method"@) == Some(JsonV::Str(c.method)));
    lemma_obj_lookup_append(e1 + e2, e3, "params"@);
    lemma_obj_lookup_append(e1, e2, "params"@);
    assert(obj_lookup(e1.drop_first(), "params"@) == Some(c.params));
    lemma_obj_lookup_append(e1 + e2, e3, "save_as"@);
    lemma_obj_lookup_append(e1, e2, "save_as"@);
    assert(obj_lookup(e1, "save_as"@) is None);
    lemma_obj_lookup_append(e1 + e2, e3, "description"@);
    lemma_obj_lookup_append(e1, e2, "description"@);
    assert(obj_lookup(e1, "description"@) is None);
}

/// Decoding the items of an encoded command list gives the list back.
proof fn lemma_cmds_round_trip(cmds: Seq<CommandV>, k: nat)
    requires
        k <= cmds.len(),
    ensures
        cmds_upto(cmds_to_json(cmds), k) is Ok,
        cmds_upto(cmds_to_json(cmds), k)->Ok_0 == cmds.take(k as int),
    decreases k,
{
    if k == 0 {
        assert(cmds.take(0) =~= Seq::<CommandV>::empty());
    } else {
        lemma_cmds_round_trip(cmds, (k - 1) as nat);
        lemma_command_round_trip(cmds[k - 1]);
        assert(cmds_upto(cmds_to_json(cmds), k)->Ok_0 =~= cmds.take(k as int));
    }
}

/// Sparse encoding of one command: `method` and `params` are always
/// present with their exact values; `save_as` and `description` are in the
/// encoded document exactly when the command has them, with their exact
/// values -- an absent field is omitted, never written as null.
pub proof fn lemma_command_encoding_sparse(c: CommandV)
    ensures
        obj_lookup(spec_command_to_json(c)->Obj_0, "method"@) == Some(JsonV::Str(c.method)),
        obj_lookup(spec_command_to_json(c)->Obj_0, "params"@) == Some(c.params),
        obj_has_key(spec_command_to_json(c)->Obj_0, "save_as"@) == (c.save_as is Some),
        c.save_as matches Some(p) ==> obj_lookup(spec_command_to_json(c)->Obj_0, "save_as"@)
            == Some(JsonV::Str(p)),
        obj_has_key(spec_command_to_json(c)->Obj_0, "description"@) == (c.description is Some),
        c.description matches Some(d) ==> obj_lookup(
            spec_command_to_json(c)->Obj_0,
            "description"@,
        ) == Some(JsonV::Str(d)),
{
    reveal_strlit("method");
    reveal_strlit("params");
    reveal_strlit("save_as");
    reveal_strlit("description");
    reveal_with_fuel(crate::json::obj_lookup, 5);
    let e1 = seq![("method"@, JsonV::Str(c.method)), ("params"@, c.params)];
    let e2 = match c.save_as {
        Some(p) => seq![("save_as"@, JsonV::Str(p))],
        None => Seq::<(Seq<char>, JsonV)>::empty(),
    };
    let e3 = match c.description {
        Some(d) => seq![("description"@, JsonV::Str(d))],
        None => Seq::<(Seq<char>, JsonV)>::empty(),
    };
    let e = e1 + e2 + e3;
    assert("method"@.len() == 6 && "params"@.len() == 6 && "save_as"@.len() == 7
        && "description"@.len() == 11);
    assert("method"@[0] == 'm' && "params"@[0] == 'p');
    assert("method"@ != "params"@);
    assert("save_as"@ != "method"@ && "save_as"@ != "params"@ && "save_as"@ != "description"@);
    assert("description"@ != "method"@ && "description"@ != "params"@);
    let keys = seq!["method"@, "params"@, "save_as"@, "description"@];
    assert forall|ki: int| 0 <= ki < keys.len() implies obj_lookup(e, #[trigger] keys[ki]) == (
    match obj_lookup(e1, keys[ki]) {
        Some(v) => Some(v),
        None => match obj_lookup(e2, keys[ki]) {
            Some(v) => Some(v),
            None => obj_lookup(e3, keys[ki]),
        },
    }) by {
        lemma_obj_lookup_append(e1 + e2, e3, keys[ki]);
        lemma_obj_lookup_append(e1, e2, keys[ki]);
    }
    assert(obj_lookup(e1, "save_as"@) is None);
    assert(obj_lookup(e1, "description"@) is None);
}

/// Sparse encoding of a script: `name`, `description` and `cdp_commands`
/// are always present with their exact values; `created` and `author` are
/// in the encoded document exactly when the script has them, and `tags`
/// exactly when the tag list is non-empty, each with its exact value -- an
/// absent field is omitted, never written as null.
pub proof fn lemma_script_encoding_sparse(s: ScriptV)
    ensures
        obj_lookup(spec_script_to_json(s)->Obj_0, "name"@) == Some(JsonV::Str(s.name)),
        obj_lookup(spec_script_to_json(s)->Obj_0, "description"@) == Some(
            JsonV::Str(s.description),
        ),
        obj_lookup(spec_script_to_json(s)->Obj_0, "cdp_commands"@) == Some(
            JsonV::Arr(cmds_to_json(s.commands)),
        ),
        obj_has_key(spec_script_to_json(s)->Obj_0, "created"@) == (s.created is Some),
        s.created matches Some(c) ==> obj_lookup(spec_script_to_json(s)->Obj_0, "created"@)
            == Some(JsonV::Str(c)),
        obj_has_key(spec_script_to_json(s)->Obj_0, "author"@) == (s.author is Some),
        s.author matches Some(a) ==> obj_lookup(spec_script_to_json(s)->Obj_0, "author"@) == Some(
            JsonV::Str(a),
        ),
        obj_has_key(spec_script_to_json(s)->Obj_0, "tags"@) == (s.tags.len() > 0),
        s.tags.len() > 0 ==> obj_lookup(spec_script_to_json(s)->Obj_0, "tags"@) == Some(
            JsonV::Arr(strs_to_json(s.tags)),
        ),
{
    reveal_strlit("name");
    reveal_strlit("description");
    reveal_strlit("created");
    reveal_strlit("author");
    reveal_strlit("tags");
    reveal_strlit("cdp_commands");
    reveal_with_fuel(crate::json::obj_lookup, 5);
    let e1 = seq![("name"@, JsonV::Str(s.name)), ("description"@, JsonV::Str(s.description))];
    let e2 = match s.created {
        Some(c) => seq![("created"@, JsonV::Str(c))],
        None => Seq::<(Seq<char>, JsonV)>::empty(),
    };
    let e3 = match s.author {
        Some(a) => seq![("author"@, JsonV::Str(a))],
        None => Seq::<(Seq<char>, JsonV)>::empty(),
    };
    let e4 = if s.tags.len() > 0 {
        seq![("tags"@, JsonV::Arr(strs_to_json(s.tags)))]
    } else {
        Seq::<(Seq<char>, JsonV)>::empty()
    };
    let e5 = seq![("cdp_commands"@, JsonV::Arr(cmds_to_json(s.commands)))];
    assert("name"@.len() == 4 && "description"@.len() == 11 && "created"@.len() == 7
        && "author"@.len() == 6 && "tags"@.len() == 4 && "cdp_commands"@.len() == 12);
    assert("name"@[0] == 'n' && "tags"@[0] == 't');
    assert("name"@ != "description"@);
    assert("created"@ != "name"@ && "created"@ != "description"@);
    assert("author"@ != "name"@ && "author"@ != "description"@ && "author"@ != "created"@);
    assert("tags"@ != "name"@ && "tags"@ != "description"@ && "tags"@ != "created"@ && "tags"@
        != "author"@);
    assert("cdp_commands"@ != "name"@ && "cdp_commands"@ != "description"@ && "cdp_commands"@
        != "created"@ && "cdp_commands"@ != "author"@ && "cdp_commands"@ != "tags"@);
    let keys = seq!["name"@, "description"@, "created"@, "author"@, "tags"@, "cdp_commands"@];
    assert forall|ki: int| 0 <= ki < keys.len() implies obj_lookup(
        (e1 + e2 + e3 + e4 + e5),
        #[trigger] keys[ki],
    ) == (match obj_lookup(e1, keys[ki]) {
        Some(v) => Some(v),
        None => match obj_lookup(e2, keys[ki]) {
            Some(v) => Some(v),
            None => match obj_lookup(e3, keys[ki]) {
                Some(v) => Some(v),
                None => match obj_lookup(e4, keys[ki]) {
                    Some(v) => Some(v),
                    None => obj_lookup(e5, keys[ki]),
                },
            },
        },
    }) by {
        lemma_obj_lookup_append(e1 + e2 + e3 + e4, e5, keys[ki]);
        lemma_obj_lookup_append(e1 + e2 + e3, e4, keys[ki]);
        lemma_obj_lookup_append(e1 + e2, e3, keys[ki]);
        lemma_obj_lookup_append(e1, e2, keys[ki]);
    }
}

/// Round trip: re-decoding a serialized script yields a script equal in all
/// fields to the original; optional fields absent originally remain absent.
pub proof fn lemma_script_round_trip(s: ScriptV)
    ensures
        spec_script_from_json(spec_script_to_json(s)) == Ok::<ScriptV, Seq<char>>(s),
{
    reveal_strlit("name");
    reveal_strlit("description");
    reveal_strlit("created");
    reveal_strlit("author");
    reveal_strlit("tags");
    reveal_strlit("cdp_commands");
    reveal_with_fuel(crate::json::obj_lookup, 5);
    let e1 = seq![("name"@, JsonV::Str(s.name)), ("description"@, JsonV::Str(s.description))];
    let e2 = match s.created {
        Some(c) => seq![("created"@, JsonV::Str(c))],
        None => Seq::<(Seq<char>, JsonV)>::empty(),
    };
    let e3 = match s.author {
        Some(a) => seq![("author"@, JsonV::Str(a))],
        None => Seq::<(Seq<char>, JsonV)>::empty(),
    };
    let e4 = if s.tags.len() > 0 {
        seq![("tags"@, JsonV::Arr(strs_to_json(s.tags)))]
    } else {
        Seq::<(Seq<char>, JsonV)>::empty()
    };
    let e5 = seq![("cdp_commands"@, JsonV::Arr(cmds_to_json(s.commands)))];
    assert("name"@.len() == 4 && "description"@.len() == 11 && "created"@.len() == 7
        && "author"@.len() == 6 && "tags"@.len() == 4 && "cdp_commands"@.len() == 12);
    assert("name"@[0] == 'n' && "tags"@[0] == 't');
    assert("name"@ != "description"@);
    assert("created"@ != "name"@ && "created"@ != "description"@);
    assert("author"@ != "name"@ && "author"@ != "description"@ && "author"@ != "created"@);
    assert("tags"@ != "name"@ && "tags"@ != "description"@ && "tags"@ != "created"@ && "tags"@
        != "author"@);
    assert("cdp_commands"@ != "name"@ && "cdp_commands"@ != "description"@ && "cdp_commands"@
        != "created"@ && "cdp_commands"@ != "author"@ && "cdp_commands"@ != "tags"@);
    let keys = seq!["name"@, "description"@, "created"@, "author"@, "tags"@, "cdp_commands"@];
    assert forall|ki: int| 0 <= ki < keys.len() implies obj_lookup(
        (e1 + e2 + e3 + e4 + e5),
        #[trigger] keys[ki],
    ) == (match obj_lookup(e1, keys[ki]) {
        Some(v) => Some(v),
        None => match obj_lookup(e2, keys[ki]) {
            Some(v) => Some(v),
            None => match obj_lookup(e3, keys[ki]) {
                Some(v) => Some(v),
                None => match obj_lookup(e4, keys[ki]) {
                    Some(v) => Some(v),
                    None => obj_lookup(e5, keys[ki]),
                },
            },
        },
    }) by {
        lemma_obj_lookup_append(e1 + e2 + e3 + e4, e5, keys[ki]);
        lemma_obj_lookup_append(e1 + e2 + e3, e4, keys[ki]);
        lemma_obj_lookup_append(e1 + e2, e3, keys[ki]);
        lemma_obj_lookup_append(e1, e2, keys[ki]);
    }
    lemma_cmds_round_trip(s.commands, s.commands.len());
    assert(s.commands.take(s.commands.len() as int) =~= s.commands);
    if s.tags.len() > 0 {
        lemma_strs_round_trip(s.tags, s.tags.len());
        assert(s.tags.take(s.tags.len() as int) =~= s.tags);
    } else {
        assert(s.tags =~= Seq::<Seq<char>>::empty());
    }
    assert(s == ScriptV {
        name: s.name,
        description: s.description,
        created: s.created,
        author: s.author,
        tags: s.tags,
        commands: s.commands,
    });
}

} // verus!
