//! Script model: a CDP script, its commands, and the execution report.
//!
//! A script is an ordered sequence of protocol commands with metadata.  The
//! structural check here is the cheap sanity gate that always runs before
//! execution; the full schema validator lives in `validation`.

use vstd::prelude::*;

use crate::json::{jv, JsonV, JsonValue};
use crate::strutil::{seq_has_char, spec_dec, str_contains_char, usize_to_string};

verus! {

/// Spec view of an optional string.
pub open spec fn opt_view(o: Option<String>) -> Option<Seq<char>> {
    match o {
        Some(s) => Some(s@),
        None => None,
    }
}

/// Spec views of a sequence of strings.
pub open spec fn strs_view(s: Seq<String>) -> Seq<Seq<char>> {
    Seq::new(
        s.len(),
        |i: int|
            if 0 <= i < s.len() {
                s[i]@
            } else {
                Seq::empty()
            },
    )
}

/// One CDP command: a `Domain.action` method with its parameters.
#[derive(Debug)]
pub struct CdpCommand {
    /// CDP method identifier, `Domain.action`.
    pub method: String,
    /// JSON parameters for the command.
    pub params: JsonValue,
    /// Save the command's output under this path.
    pub save_as: Option<String>,
    /// Description of this command step.
    pub description: Option<String>,
}

/// Mathematical view of a command.
pub struct CommandV {
    pub method: Seq<char>,
    pub params: JsonV,
    pub save_as: Option<Seq<char>>,
    pub description: Option<Seq<char>>,
}

impl View for CdpCommand {
    type V = CommandV;

    open spec fn view(&self) -> CommandV {
        CommandV {
            method: self.method@,
            params: jv(self.params),
            save_as: opt_view(self.save_as),
            description: opt_view(self.description),
        }
    }
}

/// A CDP automation script: named, described, and holding its commands.
#[derive(Debug)]
pub struct CdpScript {
    /// Script name.
    pub name: String,
    /// What the script does.
    pub description: String,
    /// Creation timestamp, if recorded.
    pub created: Option<String>,
    /// Author, if recorded.
    pub author: Option<String>,
    /// Tags for categorization.
    pub tags: Vec<String>,
    /// The commands, in execution order.
    pub cdp_commands: Vec<CdpCommand>,
}

/// Mathematical view of a script.
pub struct ScriptV {
    pub name: Seq<char>,
    pub description: Seq<char>,
    pub created: Option<Seq<char>>,
    pub author: Option<Seq<char>>,
    pub tags: Seq<Seq<char>>,
    pub commands: Seq<CommandV>,
}

/// Spec views of a sequence of commands.
pub open spec fn cmds_view(s: Seq<CdpCommand>) -> Seq<CommandV> {
    Seq::new(
        s.len(),
        |i: int|
            if 0 <= i < s.len() {
                s[i]@
            } else {
                CommandV {
                    method: Seq::empty(),
                    params: JsonV::Null,
                    save_as: None,
                    description: None,
                }
            },
    )
}

impl View for CdpScript {
    type V = ScriptV;

    open spec fn view(&self) -> ScriptV {
        ScriptV {
            name: self.name@,
            description: self.description@,
            created: opt_view(self.created),
            author: opt_view(self.author),
            tags: strs_view(self.tags@),
            commands: cmds_view(self.cdp_commands@),
        }
    }
}

/// A command method is well formed when it is non-empty and has the
/// domain/action separator.
pub open spec fn cmd_method_ok(c: CommandV) -> bool {
    c.method.len() > 0 && seq_has_char(c.method, '.')
}

/// The structural invariant: non-empty name, at least one command, every
/// method well formed.
pub open spec fn structurally_valid(s: ScriptV) -> bool {
    &&& s.name.len() > 0
    &&& s.commands.len() > 0
    &&& forall|i: int| 0 <= i < s.commands.len() ==> cmd_method_ok(#[trigger] s.commands[i])
}

/// Message for a command whose method is empty.
pub open spec fn msg_empty_method(i: nat) -> Seq<char> {
    "Command "@ + spec_dec(i + 1) + " has empty method"@
}

/// Message for a command whose method lacks the separator.
pub open spec fn msg_bad_method(i: nat, method: Seq<char>) -> Seq<char> {
    "Command "@ + spec_dec(i + 1) + " has invalid method '"@ + method
        + "' (must be Domain.method format)"@
}

/// The message for the first ill-formed command at or after `i`, if any.
pub open spec fn first_cmd_error(cmds: Seq<CommandV>, i: nat) -> Option<Seq<char>>
    decreases cmds.len() - i,
{
    if i >= cmds.len() {
        None
    } else if cmds[i as int].method.len() == 0 {
        Some(msg_empty_method(i))
    } else if !seq_has_char(cmds[i as int].method, '.') {
        Some(msg_bad_method(i, cmds[i as int].method))
    } else {
        first_cmd_error(cmds, i + 1)
    }
}

/// The outcome of the structural check: the message of the first violation.
pub open spec fn spec_structural_error(s: ScriptV) -> Option<Seq<char>> {
    if s.name.len() == 0 {
        Some("Script name cannot be empty"@)
    } else if s.commands.len() == 0 {
        Some("Script must contain at least one command"@)
    } else {
        first_cmd_error(s.commands, 0)
    }
}

/// No command at or after `i` is ill formed exactly when the scan is clean.
pub proof fn lemma_first_cmd_error_none(cmds: Seq<CommandV>, i: nat)
    requires
        i <= cmds.len(),
    ensures
        first_cmd_error(cmds, i) is None <==> forall|j: int|
            i <= j < cmds.len() ==> cmd_method_ok(#[trigger] cmds[j]),
    decreases cmds.len() - i,
{
    if i < cmds.len() {
        lemma_first_cmd_error_none(cmds, i + 1);
    }
}

impl CdpScript {
    /// Cheap structural validation, always run before execution.
    ///
    /// Fails exactly on an empty name, an empty command list, or a command
    /// whose method is empty or lacks the `Domain.action` separator; the
    /// message reports the first violation.
    #[verifier::loop_isolation(false)]
    pub fn validate(&self) -> (r: Result<(), String>)
        ensures
            r is Ok <==> structurally_valid(self@),
            r matches Err(m) ==> Some(m@) == spec_structural_error(self@),
    {
        if self.name.as_str().is_empty() {
            return Err(String::from_str("Script name cannot be empty"));
        }
        if self.cdp_commands.len() == 0 {
            return Err(String::from_str("Script must contain at least one command"));
        }
        let n = self.cdp_commands.len();
        let mut i: usize = 0;
        while i < n
            invariant
                n == self.cdp_commands@.len(),
                i <= n,
                self@.commands.len() == n,
                first_cmd_error(self@.commands, 0) == first_cmd_error(self@.commands, i as nat),
                forall|j: int| 0 <= j < i ==> cmd_method_ok(#[trigger] self@.commands[j]),
            decreases n - i,
        {
            let cmd = &self.cdp_commands[i];
            if cmd.method.as_str().is_empty() {
                let mut m = String::from_str("Command ");
                m.append(usize_to_string(i + 1).as_str());
                m.append(" has empty method");
                proof {
                    assert(m@ =~= msg_empty_method(i as nat));
                }
                return Err(m);
            }
            if !str_contains_char(cmd.method.as_str(), '.') {
                let mut m = String::from_str("Command ");
                m.append(usize_to_string(i + 1).as_str());
                m.append(" has invalid method '");
                m.append(cmd.method.as_str());
                m.append("' (must be Domain.method format)");
                proof {
                    assert(m@ =~= msg_bad_method(i as nat, self@.commands[i as int].method));
                }
                return Err(m);
            }
            i = i + 1;
        }
        proof {
            lemma_first_cmd_error_none(self@.commands, 0);
        }
        Ok(())
    }
}

/// Status of one executed command.
#[derive(Debug, Clone, Copy, PartialEq, Eq, Structural)]
pub enum CommandStatus {
    Success,
    Failed,
    Skipped,
}

/// Result of executing a single command.
#[derive(Debug)]
pub struct CommandResult {
    /// Step number, 1-based.
    pub step: usize,
    /// CDP method that was executed.
    pub method: String,
    /// Execution status.
    pub status: CommandStatus,
    /// How long the command took, in milliseconds.
    pub duration_ms: u64,
    /// Response from the browser, if the command succeeded.
    pub response: Option<JsonValue>,
    /// Error message, if the command failed.
    pub error: Option<String>,
    /// File written because `save_as` was set.
    pub saved_file: Option<String>,
}

/// Mathematical view of a command result.
pub struct ResultV {
    pub step: int,
    pub method: Seq<char>,
    pub status: CommandStatus,
    pub duration_ms: int,
    pub response: Option<JsonV>,
    pub error: Option<Seq<char>>,
    pub saved_file: Option<Seq<char>>,
}

impl View for CommandResult {
    type V = ResultV;

    open spec fn view(&self) -> ResultV {
        ResultV {
            step: self.step as int,
            method: self.method@,
            status: self.status,
            duration_ms: self.duration_ms as int,
            response: match self.response {
                Some(v) => Some(jv(v)),
                None => None,
            },
            error: opt_view(self.error),
            saved_file: opt_view(self.saved_file),
        }
    }
}

/// Spec views of a sequence of command results.
pub open spec fn results_view(s: Seq<CommandResult>) -> Seq<ResultV> {
    Seq::new(
        s.len(),
        |i: int|
            if 0 <= i < s.len() {
                s[i]@
            } else {
                ResultV {
                    step: 0,
                    method: Seq::empty(),
                    status: CommandStatus::Skipped,
                    duration_ms: 0,
                    response: None,
                    error: None,
                    saved_file: None,
                }
            },
    )
}

/// Complete report of a script run.
#[derive(Debug)]
pub struct ExecutionReport {
    /// Name of the script that ran.
    pub script_name: String,
    /// Number of commands in the script.
    pub total_commands: usize,
    /// Commands that succeeded.
    pub successful: usize,
    /// Commands that failed.
    pub failed: usize,
    /// Commands that were skipped.
    pub skipped: usize,
    /// Total execution time, in milliseconds.
    pub total_duration_ms: u64,
    /// One entry per attempted command, in order.
    pub results: Vec<CommandResult>,
}

/// Mathematical view of a report.
pub struct ReportV {
    pub script_name: Seq<char>,
    pub total_commands: int,
    pub successful: int,
    pub failed: int,
    pub skipped: int,
    pub total_duration_ms: int,
    pub results: Seq<ResultV>,
}

impl View for ExecutionReport {
    type V = ReportV;

    open spec fn view(&self) -> ReportV {
        ReportV {
            script_name: self.script_name@,
            total_commands: self.total_commands as int,
            successful: self.successful as int,
            failed: self.failed as int,
            skipped: self.skipped as int,
            total_duration_ms: self.total_duration_ms as int,
            results: results_view(self.results@),
        }
    }
}

impl ExecutionReport {
    /// Fresh report for a script of `total_commands` commands: counters zero,
    /// no results yet.
    pub fn new(script_name: String, total_commands: usize) -> (r: Self)
        ensures
            r@.script_name == script_name@,
            r@.total_commands == total_commands as int,
            r@.successful == 0,
            r@.failed == 0,
            r@.skipped == 0,
            r@.total_duration_ms == 0,
            r@.results.len() == 0,
    {
        Self {
            script_name,
            total_commands,
            successful: 0,
            failed: 0,
            skipped: 0,
            total_duration_ms: 0,
            results: Vec::new(),
        }
    }

    /// Append one result: it joins the list, its duration joins the total,
    /// and the counter of its status moves up by one.
    pub fn add_result(&mut self, result: CommandResult)
        requires
            old(self).total_duration_ms + result.duration_ms <= u64::MAX,
            old(self).successful < usize::MAX,
            old(self).failed < usize::MAX,
            old(self).skipped < usize::MAX,
        ensures
            final(self)@.results == old(self)@.results.push(result@),
            final(self)@.total_duration_ms == old(self)@.total_duration_ms
                + result@.duration_ms,
            final(self)@.successful == old(self)@.successful + (
            if result.status is Success {
                1int
            } else {
                0int
            }),
            final(self)@.failed == old(self)@.failed + (
            if result.status is Failed {
                1int
            } else {
                0int
            }),
            final(self)@.skipped == old(self)@.skipped + (
            if result.status is Skipped {
                1int
            } else {
                0int
            }),
            final(self)@.script_name == old(self)@.script_name,
            final(self)@.total_commands == old(self)@.total_commands,
    {
        self.total_duration_ms = self.total_duration_ms + result.duration_ms;
        match result.status {
            CommandStatus::Success => {
                self.successful = self.successful + 1;
            },
            CommandStatus::Failed => {
                self.failed = self.failed + 1;
            },
            CommandStatus::Skipped => {
                self.skipped = self.skipped + 1;
            },
        }
        self.results.push(result);
        proof {
            assert(final(self)@.results =~= old(self)@.results.push(result@));
        }
    }

    /// A run is a complete success when nothing failed and every command of
    /// the script succeeded.
    pub fn is_success(&self) -> (r: bool)
        ensures
            r == (self@.failed == 0 && self@.successful == self@.total_commands),
    {
        self.failed == 0 && self.successful == self.total_commands
    }

    /// Success rate as a whole-number percentage:
    /// `100 * successful / total_commands`, and `0` for an empty script.
    pub fn success_rate(&self) -> (r: u64)
        requires
            self.successful <= usize::MAX / 100,
        ensures
            self@.total_commands > 0 ==> r as int == 100 * self@.successful
                / self@.total_commands,
            self@.total_commands == 0 ==> r == 0,
    {
        if self.total_commands == 0 {
            return 0u64;
        }
        ((100 * self.successful) / self.total_commands) as u64
    }
}

} // verus!
