//! The lifecycle orchestrator: the decisions of the create and restart
//! operations as explicit state machines. Every effect — existence check,
//! PATH lookup, directory canonicalization, file write, control-plane
//! call — is an action handed to an unverified driver, which performs it
//! and hands the outcome back as an event.

use vstd::prelude::*;
use vstd::string::StringExecFns;
use crate::names::{full_service_name, spec_full_service_name, spec_unit_file_path, unit_file_path};
use crate::paths::{
    basename, extension, interpreter_for_extension, spec_basename, spec_extension,
    spec_interpreter_for_ext, spec_parent, parent_dir, str_eq,
};
use crate::synth::{synthesize, unit_text, ResolvedUnitSpec, ResolvedUnitSpecView};

verus! {

/// Why a create operation aborted before or while mutating state.
#[derive(Clone, Copy, Debug, PartialEq, Eq, Structural)]
pub enum CreateError {
    /// No command was given: there is nothing to run.
    NoCommand,
    /// The resolved unit-file path is already taken; creating would
    /// silently destroy an existing definition.
    AlreadyExists,
    /// No run-as user was given and none could be drawn from the identity.
    NoUser,
    /// The requested interpreter is not on the target user's path.
    BinaryNotFound,
    /// The working directory could not be resolved.
    UnknownDirectory,
    /// The definition could not be written to disk.
    PersistFailed,
}

/// Why a control-plane call failed.
#[derive(Clone, Copy, Debug, PartialEq, Eq, Structural)]
pub enum ControlPlaneError {
    /// The submitted job completed with a result other than `done`.
    JobFailed,
}

/// A completed init-system job counts as success only when its result is
/// `done`; any other completion surfaces as a failed job.
pub open spec fn spec_interpret_job_result(result: Seq<char>) -> Result<(), ControlPlaneError> {
    if result == "done"@ {
        Ok(())
    } else {
        Err(ControlPlaneError::JobFailed)
    }
}

/// Maps the result string of a completed init-system job to the outcome
/// of the two-phase call that awaited it.
pub fn interpret_job_result(result: &str) -> (r: Result<(), ControlPlaneError>)
    ensures
        r == spec_interpret_job_result(result@),
{
    if str_eq(result, "done") {
        Ok(())
    } else {
        Err(ControlPlaneError::JobFailed)
    }
}

/// The identity of the invoking operator, read once at the boundary: the
/// login user and, under elevated privileges, the original user.
pub struct Identity {
    pub user: Option<String>,
    pub sudo_user: Option<String>,
}

/// Mathematical image of an `Identity`.
#[verifier::ext_equal]
pub struct IdentityView {
    pub user: Option<Seq<char>>,
    pub sudo_user: Option<Seq<char>>,
}

impl View for Identity {
    type V = IdentityView;

    open spec fn view(&self) -> IdentityView {
        IdentityView { user: self.user.deep_view(), sudo_user: self.sudo_user.deep_view() }
    }
}

/// What the operator asked for when creating a service: the command to
/// run and every optional override.
pub struct CreateArgs {
    /// Optional custom name for the service.
    pub name: Option<String>,
    /// Optional working directory for the service.
    pub directory: Option<String>,
    /// Print the definition that would be created instead of creating it.
    pub debug: bool,
    /// Optional run-as user for the service.
    pub user: Option<String>,
    /// Start the service once created.
    pub start: bool,
    /// Enable the service to start on boot once created.
    pub enable: bool,
    /// Restart the service automatically on failure.
    pub auto_restart: bool,
    /// Optional interpreter override, by name or path.
    pub interpreter: Option<String>,
    /// Environment variable assignments, `KEY=VALUE` each.
    pub env_vars: Vec<String>,
    /// The command to run: the target file or executable and its arguments.
    pub command: Vec<String>,
}

/// Mathematical image of a `CreateArgs`.
#[verifier::ext_equal]
pub struct CreateArgsView {
    pub name: Option<Seq<char>>,
    pub directory: Option<Seq<char>>,
    pub debug: bool,
    pub user: Option<Seq<char>>,
    pub start: bool,
    pub enable: bool,
    pub auto_restart: bool,
    pub interpreter: Option<Seq<char>>,
    pub env_vars: Seq<Seq<char>>,
    pub command: Seq<Seq<char>>,
}

impl View for CreateArgs {
    type V = CreateArgsView;

    open spec fn view(&self) -> CreateArgsView {
        CreateArgsView {
            name: self.name.deep_view(),
            directory: self.directory.deep_view(),
            debug: self.debug,
            user: self.user.deep_view(),
            start: self.start,
            enable: self.enable,
            auto_restart: self.auto_restart,
            interpreter: self.interpreter.deep_view(),
            env_vars: self.env_vars.deep_view(),
            command: self.command.deep_view(),
        }
    }
}

/// Where a create operation stands: which outcome it is waiting for.
#[derive(Clone, Copy, Debug, PartialEq, Eq, Structural)]
pub enum CreatePhase {
    /// Waiting for the unit-file existence check.
    AwaitExists,
    /// Waiting for the PATH lookup of the requested interpreter.
    AwaitInterpreterBin,
    /// Waiting to learn whether the target is a plain file.
    AwaitIsFile,
    /// Waiting for the fallback PATH lookup of the command itself.
    AwaitFallbackBin,
    /// Waiting for the canonicalized working directory.
    AwaitDir,
    /// Waiting for the current directory.
    AwaitCwd,
    /// Waiting for the definition to be persisted.
    AwaitWrite,
    /// Waiting for the chained start call.
    AwaitStart,
    /// Waiting for the chained enable call.
    AwaitEnable,
    /// Waiting for the closing status query.
    AwaitStatus,
    /// The operation concluded.
    Done,
    /// The operation aborted with this error.
    Failed(CreateError),
}

/// The state a create operation carries between effects.
pub struct CreateMachine {
    pub dry_run: bool,
    pub want_start: bool,
    pub want_enable: bool,
    pub auto_restart: bool,
    pub env_vars: Vec<String>,
    pub user: String,
    pub user_missing: bool,
    pub target: String,
    pub command: Vec<String>,
    pub pending_interpreter: Option<String>,
    pub interpreter_applied: bool,
    pub explicit_dir: Option<String>,
    pub unit_name: String,
    pub unit_path: String,
    pub directory: String,
    pub phase: CreatePhase,
}

/// Mathematical image of a `CreateMachine`.
#[verifier::ext_equal]
pub struct CreateMachineV {
    pub dry_run: bool,
    pub want_start: bool,
    pub want_enable: bool,
    pub auto_restart: bool,
    pub env_vars: Seq<Seq<char>>,
    pub user: Seq<char>,
    pub user_missing: bool,
    pub target: Seq<char>,
    pub command: Seq<Seq<char>>,
    pub pending_interpreter: Option<Seq<char>>,
    pub interpreter_applied: bool,
    pub explicit_dir: Option<Seq<char>>,
    pub unit_name: Seq<char>,
    pub unit_path: Seq<char>,
    pub directory: Seq<char>,
    pub phase: CreatePhase,
}

impl View for CreateMachine {
    type V = CreateMachineV;

    open spec fn view(&self) -> CreateMachineV {
        CreateMachineV {
            dry_run: self.dry_run,
            want_start: self.want_start,
            want_enable: self.want_enable,
            auto_restart: self.auto_restart,
            env_vars: self.env_vars.deep_view(),
            user: self.user@,
            user_missing: self.user_missing,
            target: self.target@,
            command: self.command.deep_view(),
            pending_interpreter: self.pending_interpreter.deep_view(),
            interpreter_applied: self.interpreter_applied,
            explicit_dir: self.explicit_dir.deep_view(),
            unit_name: self.unit_name@,
            unit_path: self.unit_path@,
            directory: self.directory@,
            phase: self.phase,
        }
    }
}

/// An effect the driver must perform for a create operation.
pub enum CreateAction {
    /// Ask whether a file exists at this path.
    CheckExists { path: String },
    /// Look a binary up on the user's PATH.
    LookupBinary { name: String, user: String },
    /// Ask whether the target is a plain file.
    CheckIsFile { path: String },
    /// Canonicalize this directory.
    Canonicalize { path: String },
    /// Ask for the current directory.
    GetCwd,
    /// Print the definition; a dry run creates nothing.
    Emit { text: String },
    /// Persist the definition at this path.
    WriteFile { path: String, text: String },
    /// Start this unit through the control plane.
    StartUnit { unit: String },
    /// Enable this unit through the control plane.
    EnableUnit { unit: String },
    /// Query and display this unit's status.
    QueryStatus { unit: String },
    /// Report this error; the operation has aborted.
    Report { error: CreateError },
    /// Nothing is left to do.
    Halt,
}

/// Mathematical image of a `CreateAction`.
#[verifier::ext_equal]
pub enum CreateActionV {
    CheckExists { path: Seq<char> },
    LookupBinary { name: Seq<char>, user: Seq<char> },
    CheckIsFile { path: Seq<char> },
    Canonicalize { path: Seq<char> },
    GetCwd,
    Emit { text: Seq<char> },
    WriteFile { path: Seq<char>, text: Seq<char> },
    StartUnit { unit: Seq<char> },
    EnableUnit { unit: Seq<char> },
    QueryStatus { unit: Seq<char> },
    Report { error: CreateError },
    Halt,
}

impl View for CreateAction {
    type V = CreateActionV;

    open spec fn view(&self) -> CreateActionV {
        match self {
            CreateAction::CheckExists { path } => CreateActionV::CheckExists { path: path@ },
            CreateAction::LookupBinary { name, user } => CreateActionV::LookupBinary {
                name: name@,
                user: user@,
            },
            CreateAction::CheckIsFile { path } => CreateActionV::CheckIsFile { path: path@ },
            CreateAction::Canonicalize { path } => CreateActionV::Canonicalize { path: path@ },
            CreateAction::GetCwd => CreateActionV::GetCwd,
            CreateAction::Emit { text } => CreateActionV::Emit { text: text@ },
            CreateAction::WriteFile { path, text } => CreateActionV::WriteFile {
                path: path@,
                text: text@,
            },
            CreateAction::StartUnit { unit } => CreateActionV::StartUnit { unit: unit@ },
            CreateAction::EnableUnit { unit } => CreateActionV::EnableUnit { unit: unit@ },
            CreateAction::QueryStatus { unit } => CreateActionV::QueryStatus { unit: unit@ },
            CreateAction::Report { error } => CreateActionV::Report { error: *error },
            CreateAction::Halt => CreateActionV::Halt,
        }
    }
}

/// The outcome of a performed action, handed back by the driver.
pub enum CreateEvent {
    /// Whether a file exists at the checked path.
    ExistsChecked { exists: bool },
    /// Where the binary was found, if anywhere.
    BinaryLooked { found: Option<String> },
    /// Whether the target is a plain file.
    IsFileChecked { is_file: bool },
    /// The canonicalized directory, if it resolved.
    DirResolved { dir: Option<String> },
    /// The current directory, if it could be read.
    CwdIs { dir: Option<String> },
    /// Whether the definition was persisted.
    Written { ok: bool },
    /// Outcome of a chained control-plane call; reported by the driver,
    /// never a reason to stop the chain.
    ControlDone { ok: bool },
    /// The status query was made and displayed.
    StatusShown,
}

/// Mathematical image of a `CreateEvent`.
#[verifier::ext_equal]
pub enum CreateEventV {
    ExistsChecked { exists: bool },
    BinaryLooked { found: Option<Seq<char>> },
    IsFileChecked { is_file: bool },
    DirResolved { dir: Option<Seq<char>> },
    CwdIs { dir: Option<Seq<char>> },
    Written { ok: bool },
    ControlDone { ok: bool },
    StatusShown,
}

impl View for CreateEvent {
    type V = CreateEventV;

    open spec fn view(&self) -> CreateEventV {
        match self {
            CreateEvent::ExistsChecked { exists } => CreateEventV::ExistsChecked {
                exists: *exists,
            },
            CreateEvent::BinaryLooked { found } => CreateEventV::BinaryLooked {
                found: found.deep_view(),
            },
            CreateEvent::IsFileChecked { is_file } => CreateEventV::IsFileChecked {
                is_file: *is_file,
            },
            CreateEvent::DirResolved { dir } => CreateEventV::DirResolved {
                dir: dir.deep_view(),
            },
            CreateEvent::CwdIs { dir } => CreateEventV::CwdIs { dir: dir.deep_view() },
            CreateEvent::Written { ok } => CreateEventV::Written { ok: *ok },
            CreateEvent::ControlDone { ok } => CreateEventV::ControlDone { ok: *ok },
            CreateEvent::StatusShown => CreateEventV::StatusShown,
        }
    }
}

/// The run-as user: the explicit choice, else the pre-elevation user,
/// else the login user.
pub open spec fn spec_resolved_user(a: CreateArgsView, id: IdentityView) -> Option<Seq<char>> {
    match a.user {
        Some(u) => Some(u),
        None => match id.sudo_user {
            Some(u) => Some(u),
            None => id.user,
        },
    }
}

/// The logical service name: the explicit choice, else the target's base
/// name.
pub open spec fn spec_service_name(a: CreateArgsView) -> Seq<char> {
    match a.name {
        Some(n) => n,
        None => spec_basename(a.command[0]),
    }
}

/// The interpreter that must be looked up: the explicit choice, else the
/// one the target's extension implies, else none.
pub open spec fn spec_pending_interpreter(a: CreateArgsView) -> Option<Seq<char>> {
    match a.interpreter {
        Some(i) => Some(i),
        None => match spec_extension(a.command[0]) {
            Some(e) => spec_interpreter_for_ext(e),
            None => None,
        },
    }
}

/// What a create operation starts as: the machine and its first action,
/// or the error that aborts it before any effect. Fails exactly on a
/// missing command: the unit name and its existence check come first, so
/// an unresolvable user surfaces only once the path proves free.
pub open spec fn spec_create_init(a: CreateArgsView, id: IdentityView) -> Result<
    (CreateMachineV, CreateActionV),
    CreateError,
> {
    if a.command.len() == 0 {
        Err(CreateError::NoCommand)
    } else {
        let user = match spec_resolved_user(a, id) {
            Some(u) => u,
            None => Seq::empty(),
        };
        let unit_name = spec_full_service_name(spec_service_name(a));
        let unit_path = spec_unit_file_path(unit_name);
        let m = CreateMachineV {
            dry_run: a.debug,
            want_start: a.start,
            want_enable: a.enable,
            auto_restart: a.auto_restart,
            env_vars: a.env_vars,
            user: user,
            user_missing: spec_resolved_user(a, id) is None,
            target: a.command[0],
            command: a.command,
            pending_interpreter: spec_pending_interpreter(a),
            interpreter_applied: false,
            explicit_dir: a.directory,
            unit_name: unit_name,
            unit_path: unit_path,
            directory: Seq::empty(),
            phase: CreatePhase::AwaitExists,
        };
        Ok((m, CreateActionV::CheckExists { path: unit_path }))
    }
}

/// A failed machine and the report of its error.
pub open spec fn spec_fail(m: CreateMachineV, e: CreateError) -> (CreateMachineV, CreateActionV) {
    (
        CreateMachineV { phase: CreatePhase::Failed(e), ..m },
        CreateActionV::Report { error: e },
    )
}

/// The working-directory decision: an explicit directory is canonicalized;
/// else, when an interpreter was applied, the target's parent is (the
/// current directory standing in for an empty parent); else the current
/// directory serves.
pub open spec fn spec_dir_decision(m: CreateMachineV) -> (CreateMachineV, CreateActionV) {
    match m.explicit_dir {
        Some(d) => (
            CreateMachineV { phase: CreatePhase::AwaitDir, ..m },
            CreateActionV::Canonicalize { path: d },
        ),
        None => {
            if m.interpreter_applied {
                let p = spec_parent(m.target);
                if p.len() == 0 {
                    (CreateMachineV { phase: CreatePhase::AwaitCwd, ..m }, CreateActionV::GetCwd)
                } else {
                    (
                        CreateMachineV { phase: CreatePhase::AwaitDir, ..m },
                        CreateActionV::Canonicalize { path: p },
                    )
                }
            } else {
                (CreateMachineV { phase: CreatePhase::AwaitCwd, ..m }, CreateActionV::GetCwd)
            }
        },
    }
}

/// The resolved description a machine synthesizes from, once its
/// directory is known.
pub open spec fn spec_machine_unit(m: CreateMachineV, dir: Seq<char>) -> ResolvedUnitSpecView {
    ResolvedUnitSpecView {
        command: m.command,
        directory: dir,
        user: m.user,
        env_vars: m.env_vars,
        auto_restart: m.auto_restart,
    }
}

/// Once the directory is resolved the definition is synthesized; a dry
/// run emits it and concludes with no further effect, otherwise it is
/// persisted at the resolved unit-file path.
pub open spec fn spec_after_dir(m: CreateMachineV, dir: Seq<char>) -> (
    CreateMachineV,
    CreateActionV,
) {
    let text = unit_text(spec_machine_unit(m, dir));
    if m.dry_run {
        (
            CreateMachineV { directory: dir, phase: CreatePhase::Done, ..m },
            CreateActionV::Emit { text },
        )
    } else {
        (
            CreateMachineV { directory: dir, phase: CreatePhase::AwaitWrite, ..m },
            CreateActionV::WriteFile { path: m.unit_path, text },
        )
    }
}

/// What follows a successful write: the chained start, else the chained
/// enable, else the closing status query.
pub open spec fn spec_post_write(m: CreateMachineV) -> (CreateMachineV, CreateActionV) {
    if m.want_start {
        (
            CreateMachineV { phase: CreatePhase::AwaitStart, ..m },
            CreateActionV::StartUnit { unit: m.unit_name },
        )
    } else if m.want_enable {
        (
            CreateMachineV { phase: CreatePhase::AwaitEnable, ..m },
            CreateActionV::EnableUnit { unit: m.unit_name },
        )
    } else {
        (
            CreateMachineV { phase: CreatePhase::AwaitStatus, ..m },
            CreateActionV::QueryStatus { unit: m.unit_name },
        )
    }
}

/// One decision of the create operation: from the machine and the outcome
/// of its last action to the next machine and action. Any event that the
/// current phase does not await leaves the machine as it stands.
pub open spec fn spec_create_step(m: CreateMachineV, ev: CreateEventV) -> (
    CreateMachineV,
    CreateActionV,
) {
    match (m.phase, ev) {
        (CreatePhase::AwaitExists, CreateEventV::ExistsChecked { exists }) => {
            if exists {
                spec_fail(m, CreateError::AlreadyExists)
            } else if m.user_missing {
                spec_fail(m, CreateError::NoUser)
            } else {
                match m.pending_interpreter {
                    Some(name) => (
                        CreateMachineV { phase: CreatePhase::AwaitInterpreterBin, ..m },
                        CreateActionV::LookupBinary { name, user: m.user },
                    ),
                    None => (
                        CreateMachineV { phase: CreatePhase::AwaitIsFile, ..m },
                        CreateActionV::CheckIsFile { path: m.target },
                    ),
                }
            }
        },
        (CreatePhase::AwaitInterpreterBin, CreateEventV::BinaryLooked { found }) => {
            match found {
                None => spec_fail(m, CreateError::BinaryNotFound),
                Some(bin) => spec_dir_decision(
                    CreateMachineV {
                        command: m.command.insert(0, bin),
                        interpreter_applied: true,
                        ..m
                    },
                ),
            }
        },
        (CreatePhase::AwaitIsFile, CreateEventV::IsFileChecked { is_file }) => {
            if is_file {
                spec_dir_decision(m)
            } else {
                (
                    CreateMachineV { phase: CreatePhase::AwaitFallbackBin, ..m },
                    CreateActionV::LookupBinary { name: m.target, user: m.user },
                )
            }
        },
        (CreatePhase::AwaitFallbackBin, CreateEventV::BinaryLooked { found }) => {
            match found {
                None => spec_dir_decision(m),
                Some(bin) => spec_dir_decision(
                    CreateMachineV { command: m.command.update(0, bin), ..m },
                ),
            }
        },
        (CreatePhase::AwaitDir, CreateEventV::DirResolved { dir }) => {
            match dir {
                None => spec_fail(m, CreateError::UnknownDirectory),
                Some(d) => spec_after_dir(m, d),
            }
        },
        (CreatePhase::AwaitCwd, CreateEventV::CwdIs { dir }) => {
            match dir {
                None => spec_fail(m, CreateError::UnknownDirectory),
                Some(d) => spec_after_dir(m, d),
            }
        },
        (CreatePhase::AwaitWrite, CreateEventV::Written { ok }) => {
            if ok {
                spec_post_write(m)
            } else {
                spec_fail(m, CreateError::PersistFailed)
            }
        },
        (CreatePhase::AwaitStart, CreateEventV::ControlDone { .. }) => {
            if m.want_enable {
                (
                    CreateMachineV { phase: CreatePhase::AwaitEnable, ..m },
                    CreateActionV::EnableUnit { unit: m.unit_name },
                )
            } else {
                (
                    CreateMachineV { phase: CreatePhase::AwaitStatus, ..m },
                    CreateActionV::QueryStatus { unit: m.unit_name },
                )
            }
        },
        (CreatePhase::AwaitEnable, CreateEventV::ControlDone { .. }) => (
            CreateMachineV { phase: CreatePhase::AwaitStatus, ..m },
            CreateActionV::QueryStatus { unit: m.unit_name },
        ),
        (CreatePhase::AwaitStatus, CreateEventV::StatusShown) => (
            CreateMachineV { phase: CreatePhase::Done, ..m },
            CreateActionV::Halt,
        ),
        _ => (m, CreateActionV::Halt),
    }
}

/// The protocol invariant a create machine keeps: a command to run, and
/// no persisting or control-plane phase ever entered on a dry run.
pub open spec fn create_wf(m: CreateMachineV) -> bool {
    &&& m.command.len() > 0
    &&& (m.dry_run ==> {
        &&& m.phase != CreatePhase::AwaitWrite
        &&& m.phase != CreatePhase::AwaitStart
        &&& m.phase != CreatePhase::AwaitEnable
        &&& m.phase != CreatePhase::AwaitStatus
    })
}

/// Begins a create operation: validates the intent, resolves the user,
/// the names and the interpreter to look up, and asks for the existence
/// check of the unit-file path — the check that precedes any write.
pub fn create_init(args: CreateArgs, identity: Identity) -> (r: Result<
    (CreateMachine, CreateAction),
    CreateError,
>)
    ensures
        ({
            let s = spec_create_init(args@, identity@);
            match r {
                Ok(p) => s == Ok::<(CreateMachineV, CreateActionV), CreateError>((p.0@, p.1@))
                    && create_wf(p.0@),
                Err(e) => s == Err::<(CreateMachineV, CreateActionV), CreateError>(e),
            }
        }),
{
    let ghost a = args@;
    let CreateArgs {
        name,
        directory,
        debug,
        user,
        start,
        enable,
        auto_restart,
        interpreter,
        env_vars,
        command,
    } = args;
    if command.len() == 0 {
        return Err(CreateError::NoCommand);
    }
    let Identity { user: id_user, sudo_user: id_sudo } = identity;
    let (run_user, user_missing): (String, bool) = match user {
        Some(u) => (u, false),
        None => match id_sudo {
            Some(u) => (u, false),
            None => match id_user {
                Some(u) => (u, false),
                None => (String::new(), true),
            },
        },
    };
    let target: String = command[0].clone();
    proof {
        assert(target@ == a.command[0]);
    }
    let service_name: String = match name {
        Some(n) => n,
        None => basename(target.as_str()),
    };
    let unit_name = full_service_name(service_name.as_str());
    let unit_path = unit_file_path(unit_name.as_str());
    let pending: Option<String> = match interpreter {
        Some(i) => Some(i),
        None => match extension(target.as_str()) {
            Some(e) => interpreter_for_extension(e.as_str()),
            None => None,
        },
    };
    let action_path = unit_path.clone();
    let m = CreateMachine {
        dry_run: debug,
        want_start: start,
        want_enable: enable,
        auto_restart,
        env_vars,
        user: run_user,
        user_missing,
        target,
        command,
        pending_interpreter: pending,
        interpreter_applied: false,
        explicit_dir: directory,
        unit_name,
        unit_path,
        directory: String::new(),
        phase: CreatePhase::AwaitExists,
    };
    proof {
        let s = spec_create_init(a, identity@);
        assert(m@ =~= s->Ok_0.0);
        assert((CreateActionV::CheckExists { path: action_path@ }) =~= s->Ok_0.1);
    }
    Ok((m, CreateAction::CheckExists { path: action_path }))
}

/// Carries out the working-directory decision on the machine.
fn dir_step(m: CreateMachine) -> (r: (CreateMachine, CreateAction))
    ensures
        r.0@ == spec_dir_decision(m@).0,
        r.1@ == spec_dir_decision(m@).1,
{
    let mut m = m;
    let explicit: Option<String> = match &m.explicit_dir {
        Some(d) => Some(d.clone()),
        None => None,
    };
    match explicit {
        Some(d) => {
            m.phase = CreatePhase::AwaitDir;
            (m, CreateAction::Canonicalize { path: d })
        },
        None => {
            if m.interpreter_applied {
                let p = parent_dir(m.target.as_str());
                if p.as_str().unicode_len() == 0 {
                    m.phase = CreatePhase::AwaitCwd;
                    (m, CreateAction::GetCwd)
                } else {
                    m.phase = CreatePhase::AwaitDir;
                    (m, CreateAction::Canonicalize { path: p })
                }
            } else {
                m.phase = CreatePhase::AwaitCwd;
                (m, CreateAction::GetCwd)
            }
        },
    }
}

/// Synthesizes the definition once the directory is known, then emits it
/// (dry run) or asks for it to be persisted.
fn after_dir_step(m: CreateMachine, dir: String) -> (r: (CreateMachine, CreateAction))
    requires
        m@.command.len() > 0,
    ensures
        r.0@ == spec_after_dir(m@, dir@).0,
        r.1@ == spec_after_dir(m@, dir@).1,
{
    let ghost m0 = m@;
    let mut m = m;
    let command = m.command.clone();
    let env_vars = m.env_vars.clone();
    proof {
        lemma_string_vec_clone(m.command, command);
        lemma_string_vec_clone(m.env_vars, env_vars);
    }
    let unit = ResolvedUnitSpec {
        command,
        directory: dir,
        user: m.user.clone(),
        env_vars,
        auto_restart: m.auto_restart,
    };
    proof {
        assert(unit@ =~= spec_machine_unit(m0, dir@));
    }
    let text = synthesize(&unit);
    m.directory = unit.directory;
    if m.dry_run {
        m.phase = CreatePhase::Done;
        proof {
            assert(m@ =~= spec_after_dir(m0, dir@).0);
        }
        (m, CreateAction::Emit { text })
    } else {
        let path = m.unit_path.clone();
        m.phase = CreatePhase::AwaitWrite;
        proof {
            assert(m@ =~= spec_after_dir(m0, dir@).0);
        }
        (m, CreateAction::WriteFile { path, text })
    }
}

/// One decision of the create operation: performs the transition that
/// `spec_create_step` fixes for the machine and the event, and returns the
/// next machine together with the one action the driver must perform next.
pub fn create_step(m: CreateMachine, ev: CreateEvent) -> (r: (CreateMachine, CreateAction))
    requires
        create_wf(m@),
    ensures
        r.0@ == spec_create_step(m@, ev@).0,
        r.1@ == spec_create_step(m@, ev@).1,
        create_wf(r.0@),
{
    proof {
        lemma_step_preserves_wf(m@, ev@);
    }
    let ghost m0 = m@;
    let mut m = m;
    match m.phase {
        CreatePhase::AwaitExists => match ev {
            CreateEvent::ExistsChecked { exists } => {
                if exists {
                    m.phase = CreatePhase::Failed(CreateError::AlreadyExists);
                    (m, CreateAction::Report { error: CreateError::AlreadyExists })
                } else if m.user_missing {
                    m.phase = CreatePhase::Failed(CreateError::NoUser);
                    (m, CreateAction::Report { error: CreateError::NoUser })
                } else {
                    let pending: Option<String> = match &m.pending_interpreter {
                        Some(name) => Some(name.clone()),
                        None => None,
                    };
                    match pending {
                        Some(name) => {
                            let u = m.user.clone();
                            m.phase = CreatePhase::AwaitInterpreterBin;
                            (m, CreateAction::LookupBinary { name, user: u })
                        },
                        None => {
                            let t = m.target.clone();
                            m.phase = CreatePhase::AwaitIsFile;
                            (m, CreateAction::CheckIsFile { path: t })
                        },
                    }
                }
            },
            _ => (m, CreateAction::Halt),
        },
        CreatePhase::AwaitInterpreterBin => match ev {
            CreateEvent::BinaryLooked { found } => match found {
                None => {
                    m.phase = CreatePhase::Failed(CreateError::BinaryNotFound);
                    (m, CreateAction::Report { error: CreateError::BinaryNotFound })
                },
                Some(bin) => {
                    let ghost b = bin@;
                    m.command.insert(0, bin);
                    m.interpreter_applied = true;
                    proof {
                        lemma_deep_view_insert(m0.command, m.command, b);
                        assert(m@ =~= (CreateMachineV {
                            command: m0.command.insert(0, b),
                            interpreter_applied: true,
                            ..m0
                        }));
                    }
                    dir_step(m)
                },
            },
            _ => (m, CreateAction::Halt),
        },
        CreatePhase::AwaitIsFile => match ev {
            CreateEvent::IsFileChecked { is_file } => {
                if is_file {
                    dir_step(m)
                } else {
                    let t = m.target.clone();
                    let u = m.user.clone();
                    m.phase = CreatePhase::AwaitFallbackBin;
                    (m, CreateAction::LookupBinary { name: t, user: u })
                }
            },
            _ => (m, CreateAction::Halt),
        },
        CreatePhase::AwaitFallbackBin => match ev {
            CreateEvent::BinaryLooked { found } => match found {
                None => dir_step(m),
                Some(bin) => {
                    let ghost b = bin@;
                    m.command[0] = bin;
                    proof {
                        lemma_deep_view_update(m0.command, m.command, b);
                        assert(m@ =~= (CreateMachineV { command: m0.command.update(0, b), ..m0 }));
                    }
                    dir_step(m)
                },
            },
            _ => (m, CreateAction::Halt),
        },
        CreatePhase::AwaitDir => match ev {
            CreateEvent::DirResolved { dir } => match dir {
                None => {
                    m.phase = CreatePhase::Failed(CreateError::UnknownDirectory);
                    (m, CreateAction::Report { error: CreateError::UnknownDirectory })
                },
                Some(d) => after_dir_step(m, d),
            },
            _ => (m, CreateAction::Halt),
        },
        CreatePhase::AwaitCwd => match ev {
            CreateEvent::CwdIs { dir } => match dir {
                None => {
                    m.phase = CreatePhase::Failed(CreateError::UnknownDirectory);
                    (m, CreateAction::Report { error: CreateError::UnknownDirectory })
                },
                Some(d) => after_dir_step(m, d),
            },
            _ => (m, CreateAction::Halt),
        },
        CreatePhase::AwaitWrite => match ev {
            CreateEvent::Written { ok } => {
                if ok {
                    if m.want_start {
                        let u = m.unit_name.clone();
                        m.phase = CreatePhase::AwaitStart;
                        (m, CreateAction::StartUnit { unit: u })
                    } else if m.want_enable {
                        let u = m.unit_name.clone();
                        m.phase = CreatePhase::AwaitEnable;
                        (m, CreateAction::EnableUnit { unit: u })
                    } else {
                        let u = m.unit_name.clone();
                        m.phase = CreatePhase::AwaitStatus;
                        (m, CreateAction::QueryStatus { unit: u })
                    }
                } else {
                    m.phase = CreatePhase::Failed(CreateError::PersistFailed);
                    (m, CreateAction::Report { error: CreateError::PersistFailed })
                }
            },
            _ => (m, CreateAction::Halt),
        },
        CreatePhase::AwaitStart => match ev {
            CreateEvent::ControlDone { .. } => {
                if m.want_enable {
                    let u = m.unit_name.clone();
                    m.phase = CreatePhase::AwaitEnable;
                    (m, CreateAction::EnableUnit { unit: u })
                } else {
                    let u = m.unit_name.clone();
                    m.phase = CreatePhase::AwaitStatus;
                    (m, CreateAction::QueryStatus { unit: u })
                }
            },
            _ => (m, CreateAction::Halt),
        },
        CreatePhase::AwaitEnable => match ev {
            CreateEvent::ControlDone { .. } => {
                let u = m.unit_name.clone();
                m.phase = CreatePhase::AwaitStatus;
                (m, CreateAction::QueryStatus { unit: u })
            },
            _ => (m, CreateAction::Halt),
        },
        CreatePhase::AwaitStatus => match ev {
            CreateEvent::StatusShown => {
                m.phase = CreatePhase::Done;
                (m, CreateAction::Halt)
            },
            _ => (m, CreateAction::Halt),
        },
        CreatePhase::Done => (m, CreateAction::Halt),
        CreatePhase::Failed(_) => (m, CreateAction::Halt),
    }
}

/// Inserting one string at the front acts on the deep view as inserting
/// its view.
proof fn lemma_deep_view_insert(a: Seq<Seq<char>>, b: Vec<String>, x: Seq<char>)
    requires
        b@.len() == a.len() + 1,
        b@[0]@ == x,
        forall|i: int| 1 <= i < b@.len() ==> b@[i]@ == a[i - 1],
    ensures
        b.deep_view() == a.insert(0, x),
{
    assert(b.deep_view() =~= a.insert(0, x));
}

/// Replacing the first string acts on the deep view as updating index 0
/// with its view.
proof fn lemma_deep_view_update(a: Seq<Seq<char>>, b: Vec<String>, x: Seq<char>)
    requires
        a.len() > 0,
        b@.len() == a.len(),
        b@[0]@ == x,
        forall|i: int| 1 <= i < b@.len() ==> b@[i]@ == a[i],
    ensures
        b.deep_view() == a.update(0, x),
{
    assert(b.deep_view() =~= a.update(0, x));
}

/// A cloned vector of strings views the same as its source.
proof fn lemma_string_vec_clone(a: Vec<String>, b: Vec<String>)
    requires
        a.len() == b.len(),
        forall|i| #![all_triggers] 0 <= i < a.len() ==> cloned::<String>(a[i], b[i]),
    ensures
        b.deep_view() == a.deep_view(),
{
    assert forall|i: int| 0 <= i < a.len() implies a.deep_view()[i] == b.deep_view()[i] by {
        assert(cloned::<String>(a[i], b[i]));
        assert(b[i]@ == a[i]@);
    }
    assert(b.deep_view() =~= a.deep_view());
}

/// Every step keeps the protocol invariant: the command stays non-empty,
/// and a dry run never enters a persisting or control-plane phase.
pub proof fn lemma_step_preserves_wf(m: CreateMachineV, ev: CreateEventV)
    requires
        create_wf(m),
    ensures
        create_wf(spec_create_step(m, ev).0),
{
}

/// A concluded or aborted machine absorbs every further event: it stays
/// as it is and asks for nothing.
pub proof fn lemma_terminal_absorbs(m: CreateMachineV, ev: CreateEventV)
    requires
        m.phase == CreatePhase::Done || (m.phase matches CreatePhase::Failed(_)),
    ensures
        spec_create_step(m, ev).0 == m,
        spec_create_step(m, ev).1 == CreateActionV::Halt,
{
}

/// A unit-file path that is already taken aborts the create operation
/// with `AlreadyExists`, before any write: the machine fails in place,
/// only the error report is asked for, and — by `lemma_terminal_absorbs` —
/// no action at all follows, so nothing is ever written.
pub proof fn lemma_already_exists_aborts(m: CreateMachineV)
    requires
        m.phase == CreatePhase::AwaitExists,
    ensures
        spec_create_step(m, (CreateEventV::ExistsChecked { exists: true })).0.phase
            == CreatePhase::Failed(CreateError::AlreadyExists),
        spec_create_step(m, (CreateEventV::ExistsChecked { exists: true })).1
            == (CreateActionV::Report { error: CreateError::AlreadyExists }),
        forall|ev: CreateEventV|
            spec_create_step(
                spec_create_step(m, (CreateEventV::ExistsChecked { exists: true })).0,
                ev,
            ).1 == CreateActionV::Halt,
{
}

/// Whether an action writes to the filesystem or speaks to the control
/// plane.
pub open spec fn is_effectful(a: CreateActionV) -> bool {
    ||| a matches CreateActionV::WriteFile { .. }
    ||| a matches CreateActionV::StartUnit { .. }
    ||| a matches CreateActionV::EnableUnit { .. }
    ||| a matches CreateActionV::QueryStatus { .. }
}

/// A dry run never asks for a filesystem write or a control-plane call:
/// no step of a well-formed dry-run machine yields an effectful action,
/// and every step leaves the machine a well-formed dry-run machine, so
/// this holds along the whole run. Its beginning asks only for the
/// existence check.
pub proof fn lemma_dry_run_no_effects(m: CreateMachineV, ev: CreateEventV)
    requires
        create_wf(m),
        m.dry_run,
    ensures
        !is_effectful(spec_create_step(m, ev).1),
        spec_create_step(m, ev).0.dry_run,
        create_wf(spec_create_step(m, ev).0),
{
}

/// A dry run begins with the existence check alone, never an effect.
pub proof fn lemma_dry_run_init(a: CreateArgsView, id: IdentityView)
    requires
        a.debug,
    ensures
        spec_create_init(a, id) matches Ok(p) ==> {
            &&& p.0.dry_run
            &&& create_wf(p.0)
            &&& !is_effectful(p.1)
        },
{
}

/// The actions a machine yields over a whole run of events, in order.
pub open spec fn spec_run_actions(m: CreateMachineV, evs: Seq<CreateEventV>) -> Seq<CreateActionV>
    decreases evs.len(),
{
    if evs.len() == 0 {
        Seq::empty()
    } else {
        seq![spec_create_step(m, evs.first()).1] + spec_run_actions(
            spec_create_step(m, evs.first()).0,
            evs.drop_first(),
        )
    }
}

/// A concluded or aborted machine yields nothing but `Halt`, however long
/// the run goes on.
pub proof fn lemma_terminal_run(m: CreateMachineV, evs: Seq<CreateEventV>)
    requires
        m.phase == CreatePhase::Done || (m.phase matches CreatePhase::Failed(_)),
    ensures
        forall|i: int|
            0 <= i < spec_run_actions(m, evs).len() ==> spec_run_actions(m, evs)[i]
                == CreateActionV::Halt,
    decreases evs.len(),
{
    if evs.len() > 0 {
        lemma_terminal_absorbs(m, evs.first());
        lemma_terminal_run(m, evs.drop_first());
        assert forall|i: int| 0 <= i < spec_run_actions(m, evs).len() implies spec_run_actions(
            m,
            evs,
        )[i] == CreateActionV::Halt by {
            if i > 0 {
                assert(spec_run_actions(m, evs)[i] == spec_run_actions(m, evs.drop_first())[i - 1]);
            }
        }
    }
}

/// The moment the existence check reports a taken path, the run yields
/// the `AlreadyExists` report and after it nothing at all: in particular,
/// no write is ever performed.
pub proof fn lemma_already_exists_run(m: CreateMachineV, evs: Seq<CreateEventV>)
    requires
        m.phase == CreatePhase::AwaitExists,
        evs.len() > 0,
        evs.first() == (CreateEventV::ExistsChecked { exists: true }),
    ensures
        spec_run_actions(m, evs)[0] == (CreateActionV::Report {
            error: CreateError::AlreadyExists,
        }),
        forall|i: int|
            1 <= i < spec_run_actions(m, evs).len() ==> spec_run_actions(m, evs)[i]
                == CreateActionV::Halt,
{
    lemma_already_exists_aborts(m);
    let m2 = spec_create_step(m, evs.first()).0;
    lemma_terminal_run(m2, evs.drop_first());
    assert forall|i: int| 1 <= i < spec_run_actions(m, evs).len() implies spec_run_actions(
        m,
        evs,
    )[i] == CreateActionV::Halt by {
        assert(spec_run_actions(m, evs)[i] == spec_run_actions(m2, evs.drop_first())[i - 1]);
    }
}

/// Over any whole run of events, a well-formed dry-run machine never
/// yields a filesystem write or a control-plane call.
pub proof fn lemma_dry_run_whole_run(m: CreateMachineV, evs: Seq<CreateEventV>)
    requires
        create_wf(m),
        m.dry_run,
    ensures
        forall|i: int|
            0 <= i < spec_run_actions(m, evs).len() ==> !is_effectful(spec_run_actions(m, evs)[i]),
    decreases evs.len(),
{
    if evs.len() > 0 {
        lemma_dry_run_no_effects(m, evs.first());
        let m2 = spec_create_step(m, evs.first()).0;
        lemma_dry_run_whole_run(m2, evs.drop_first());
        assert forall|i: int| 0 <= i < spec_run_actions(m, evs).len() implies !is_effectful(
            spec_run_actions(m, evs)[i],
        ) by {
            if i > 0 {
                assert(spec_run_actions(m, evs)[i] == spec_run_actions(m2, evs.drop_first())[i - 1]);
            }
        }
    }
}

/// Where a restart operation stands.
#[derive(Clone, Copy, Debug, PartialEq, Eq, Structural)]
pub enum RestartPhase {
    /// Waiting for the stop call to complete.
    Stopping,
    /// Waiting for the start call to complete.
    Starting,
    /// Waiting for the closing status query.
    AwaitStatus,
    /// The operation concluded.
    Done,
}

/// The state a restart operation carries between control-plane calls.
pub struct RestartMachine {
    pub unit_name: String,
    pub show_status: bool,
    pub phase: RestartPhase,
}

/// Mathematical image of a `RestartMachine`.
#[verifier::ext_equal]
pub struct RestartMachineV {
    pub unit_name: Seq<char>,
    pub show_status: bool,
    pub phase: RestartPhase,
}

impl View for RestartMachine {
    type V = RestartMachineV;

    open spec fn view(&self) -> RestartMachineV {
        RestartMachineV {
            unit_name: self.unit_name@,
            show_status: self.show_status,
            phase: self.phase,
        }
    }
}

/// An effect the driver must perform for a restart operation.
pub enum RestartAction {
    /// Stop this unit through the control plane and await the job.
    StopUnit { unit: String },
    /// Start this unit through the control plane and await the job.
    StartUnit { unit: String },
    /// Query and display this unit's status.
    QueryStatus { unit: String },
    /// Nothing is left to do.
    Halt,
}

/// Mathematical image of a `RestartAction`.
#[verifier::ext_equal]
pub enum RestartActionV {
    StopUnit { unit: Seq<char> },
    StartUnit { unit: Seq<char> },
    QueryStatus { unit: Seq<char> },
    Halt,
}

impl View for RestartAction {
    type V = RestartActionV;

    open spec fn view(&self) -> RestartActionV {
        match self {
            RestartAction::StopUnit { unit } => RestartActionV::StopUnit { unit: unit@ },
            RestartAction::StartUnit { unit } => RestartActionV::StartUnit { unit: unit@ },
            RestartAction::QueryStatus { unit } => RestartActionV::QueryStatus { unit: unit@ },
            RestartAction::Halt => RestartActionV::Halt,
        }
    }
}

/// The outcome of a performed restart action.
#[derive(Clone, Copy, Debug, PartialEq, Eq, Structural)]
pub enum RestartEvent {
    /// The awaited control-plane job completed; `ok` says how. A stop that
    /// reports the unit was not running arrives here as a completed job.
    ControlDone { ok: bool },
    /// The status query was made and displayed.
    StatusShown,
}

/// What a restart operation starts as: stopping comes strictly first.
pub open spec fn spec_restart_init(name: Seq<char>, show_status: bool) -> (
    RestartMachineV,
    RestartActionV,
) {
    let unit = spec_full_service_name(name);
    (
        RestartMachineV { unit_name: unit, show_status, phase: RestartPhase::Stopping },
        RestartActionV::StopUnit { unit },
    )
}

/// One decision of the restart operation. Once the stop call completes —
/// however it completed — the start call is asked for: a stop that found
/// the unit already inactive never suppresses the start.
pub open spec fn spec_restart_step(m: RestartMachineV, ev: RestartEvent) -> (
    RestartMachineV,
    RestartActionV,
) {
    match (m.phase, ev) {
        (RestartPhase::Stopping, RestartEvent::ControlDone { .. }) => (
            RestartMachineV { phase: RestartPhase::Starting, ..m },
            RestartActionV::StartUnit { unit: m.unit_name },
        ),
        (RestartPhase::Starting, RestartEvent::ControlDone { .. }) => {
            if m.show_status {
                (
                    RestartMachineV { phase: RestartPhase::AwaitStatus, ..m },
                    RestartActionV::QueryStatus { unit: m.unit_name },
                )
            } else {
                (RestartMachineV { phase: RestartPhase::Done, ..m }, RestartActionV::Halt)
            }
        },
        (RestartPhase::AwaitStatus, RestartEvent::StatusShown) => (
            RestartMachineV { phase: RestartPhase::Done, ..m },
            RestartActionV::Halt,
        ),
        _ => (m, RestartActionV::Halt),
    }
}

/// Begins a restart operation on the named service: the first action is
/// the stop call.
pub fn restart_init(name: &str, show_status: bool) -> (r: (RestartMachine, RestartAction))
    ensures
        r.0@ == spec_restart_init(name@, show_status).0,
        r.1@ == spec_restart_init(name@, show_status).1,
{
    let unit_name = full_service_name(name);
    let unit = unit_name.clone();
    let m = RestartMachine { unit_name, show_status, phase: RestartPhase::Stopping };
    (m, RestartAction::StopUnit { unit })
}

/// One decision of the restart operation, as `spec_restart_step` fixes it.
pub fn restart_step(m: RestartMachine, ev: RestartEvent) -> (r: (RestartMachine, RestartAction))
    ensures
        r.0@ == spec_restart_step(m@, ev).0,
        r.1@ == spec_restart_step(m@, ev).1,
{
    let mut m = m;
    match m.phase {
        RestartPhase::Stopping => match ev {
            RestartEvent::ControlDone { .. } => {
                let u = m.unit_name.clone();
                m.phase = RestartPhase::Starting;
                (m, RestartAction::StartUnit { unit: u })
            },
            _ => (m, RestartAction::Halt),
        },
        RestartPhase::Starting => match ev {
            RestartEvent::ControlDone { .. } => {
                if m.show_status {
                    let u = m.unit_name.clone();
                    m.phase = RestartPhase::AwaitStatus;
                    (m, RestartAction::QueryStatus { unit: u })
                } else {
                    m.phase = RestartPhase::Done;
                    (m, RestartAction::Halt)
                }
            },
            _ => (m, RestartAction::Halt),
        },
        RestartPhase::AwaitStatus => match ev {
            RestartEvent::StatusShown => {
                m.phase = RestartPhase::Done;
                (m, RestartAction::Halt)
            },
            _ => (m, RestartAction::Halt),
        },
        RestartPhase::Done => (m, RestartAction::Halt),
    }
}

/// A restart issues stop strictly before start, and the start is asked
/// for whatever the stop step reported: a unit that was not running stops
/// nothing, yet its start is still attempted.
pub proof fn lemma_restart_stop_then_start(name: Seq<char>, show_status: bool, ok: bool)
    ensures
        spec_restart_init(name, show_status).1 == (RestartActionV::StopUnit {
            unit: spec_full_service_name(name),
        }),
        spec_restart_step(
            spec_restart_init(name, show_status).0,
            (RestartEvent::ControlDone { ok }),
        ).1 == (RestartActionV::StartUnit { unit: spec_full_service_name(name) }),
        spec_restart_step(
            spec_restart_init(name, show_status).0,
            (RestartEvent::ControlDone { ok }),
        ).0.phase == RestartPhase::Starting,
{
}

} // verus!
