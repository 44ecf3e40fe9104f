//! The command builder: turns an action request into the external-tool
//! invocation to spawn, optionally routed through a container runtime.

use vstd::prelude::*;
use crate::cli::Commands;
use crate::outcome::Outcome;

verus! {

/// The four administrative actions.
#[derive(Clone, Copy, PartialEq, Eq, Structural, Debug)]
pub enum ActionKind {
    Create,
    Drop,
    Dump,
    Restore,
}

/// One action request: created once per invocation from user input,
/// immutable afterwards.
pub struct ActionRequest {
    pub kind: ActionKind,
    pub db_name: String,
    pub db_user: String,
    pub dump_file: Option<String>,
    pub container: Option<String>,
}

/// The view of an optional string.
pub open spec fn opt_view(o: Option<String>) -> Option<Seq<char>> {
    match o {
        Some(s) => Some(s@),
        None => None,
    }
}

/// An external-process invocation: a program name and its ordered
/// argument list.  It only describes the invocation; nothing here
/// spawns a process.
pub struct CommandSpec {
    pub program: String,
    pub args: Vec<String>,
}

/// Mathematical model of an invocation.
#[verifier::ext_equal]
pub ghost struct CommandModel {
    pub program: Seq<char>,
    pub args: Seq<Seq<char>>,
}

impl View for CommandSpec {
    type V = CommandModel;

    open spec fn view(&self) -> CommandModel {
        CommandModel { program: self.program@, args: self.args@.map_values(|s: String| s@) }
    }
}

/// The native database tool that performs each action.
pub open spec fn tool_name(kind: ActionKind) -> Seq<char> {
    match kind {
        ActionKind::Create => "createdb"@,
        ActionKind::Drop => "dropdb"@,
        ActionKind::Dump => "pg_dump"@,
        ActionKind::Restore => "pg_restore"@,
    }
}

/// The arguments handed to the native tool.  Create and drop pass only
/// the database name and owning user.  Dump asks for the compressed
/// custom archive format and excludes ACLs and ownership.  Restore
/// targets the named database, drops conflicting objects if they exist,
/// and excludes ownership.
pub open spec fn tool_args(kind: ActionKind, db_name: Seq<char>, db_user: Seq<char>) -> Seq<
    Seq<char>,
> {
    match kind {
        ActionKind::Create => seq![db_name, "-U"@, db_user],
        ActionKind::Drop => seq![db_name, "-U"@, db_user],
        ActionKind::Dump => seq!["-U"@, db_user, "-Fc"@, "--no-acl"@, "--no-owner"@, db_name],
        ActionKind::Restore => seq![
            "-d"@,
            db_name,
            "-U"@,
            db_user,
            "--if-exists"@,
            "-c"@,
            "--no-owner"@,
        ],
    }
}

/// The container runtime prefix: execute non-interactively inside the
/// named, already-running container.
pub open spec fn container_prefix(container: Seq<char>) -> Seq<Seq<char>> {
    seq!["exec"@, "-i"@, container]
}

/// The invocation built for an action: the native tool directly, or the
/// container runtime client with the whole inner command appended after
/// the prefix.
pub open spec fn built_command(
    kind: ActionKind,
    db_name: Seq<char>,
    db_user: Seq<char>,
    container: Option<Seq<char>>,
) -> CommandModel {
    match container {
        Some(c) => CommandModel {
            program: "docker"@,
            args: container_prefix(c) + seq![tool_name(kind)] + tool_args(kind, db_name, db_user),
        },
        None => CommandModel {
            program: tool_name(kind),
            args: tool_args(kind, db_name, db_user),
        },
    }
}

/// The native tool's program name for an action.
fn tool_program(kind: ActionKind) -> (s: String)
    ensures
        s@ == tool_name(kind),
{
    match kind {
        ActionKind::Create => "createdb".to_owned(),
        ActionKind::Drop => "dropdb".to_owned(),
        ActionKind::Dump => "pg_dump".to_owned(),
        ActionKind::Restore => "pg_restore".to_owned(),
    }
}

/// Appends the native tool's arguments for an action.
fn push_tool_args(args: &mut Vec<String>, kind: ActionKind, db_name: &String, db_user: &String)
    ensures
        final(args)@.map_values(|s: String| s@) == old(args)@.map_values(|s: String| s@)
            + tool_args(kind, db_name@, db_user@),
{
    match kind {
        ActionKind::Create | ActionKind::Drop => {
            args.push(db_name.clone());
            args.push("-U".to_owned());
            args.push(db_user.clone());
        },
        ActionKind::Dump => {
            args.push("-U".to_owned());
            args.push(db_user.clone());
            args.push("-Fc".to_owned());
            args.push("--no-acl".to_owned());
            args.push("--no-owner".to_owned());
            args.push(db_name.clone());
        },
        ActionKind::Restore => {
            args.push("-d".to_owned());
            args.push(db_name.clone());
            args.push("-U".to_owned());
            args.push(db_user.clone());
            args.push("--if-exists".to_owned());
            args.push("-c".to_owned());
            args.push("--no-owner".to_owned());
        },
    }
    proof {
        assert(args@.map_values(|s: String| s@) =~~= old(args)@.map_values(|s: String| s@)
            + tool_args(kind, db_name@, db_user@));
    }
}

/// Builds the invocation for a request: the container runtime client
/// wrapping the inner command when a container is named, the native
/// tool otherwise.
pub fn build_command(req: &ActionRequest) -> (c: CommandSpec)
    ensures
        c@ == built_command(req.kind, req.db_name@, req.db_user@, opt_view(req.container)),
{
    let mut args: Vec<String> = Vec::new();
    let program: String;
    match &req.container {
        Some(cont) => {
            program = "docker".to_owned();
            args.push("exec".to_owned());
            args.push("-i".to_owned());
            args.push(cont.clone());
            args.push(tool_program(req.kind));
        },
        None => {
            program = tool_program(req.kind);
        },
    }
    push_tool_args(&mut args, req.kind, &req.db_name, &req.db_user);
    let c = CommandSpec { program, args };
    proof {
        assert(c@ =~~= built_command(req.kind, req.db_name@, req.db_user@, opt_view(req.container)));
    }
    c
}

/// Maps a parsed subcommand to the action request it denotes.
pub fn request_of(cmd: Commands) -> (r: ActionRequest)
    ensures
        cmd matches Commands::Dump(a) ==> {
            &&& r.kind == ActionKind::Dump
            &&& r.db_name@ == a.db_name@
            &&& r.db_user@ == a.db_user@
            &&& opt_view(r.dump_file) == opt_view(a.dump_file)
            &&& opt_view(r.container) == opt_view(a.docker_container)
        },
        cmd matches Commands::Restore(a) ==> {
            &&& r.kind == ActionKind::Restore
            &&& r.db_name@ == a.db_name@
            &&& r.db_user@ == a.db_user@
            &&& r.dump_file matches Some(f) && f@ == a.dump_file@
            &&& opt_view(r.container) == opt_view(a.docker_container)
        },
        cmd matches Commands::Drop(a) ==> {
            &&& r.kind == ActionKind::Drop
            &&& r.db_name@ == a.db_name@
            &&& r.db_user@ == a.db_user@
            &&& r.dump_file matches None
            &&& opt_view(r.container) == opt_view(a.docker_container)
        },
        cmd matches Commands::Create(a) ==> {
            &&& r.kind == ActionKind::Create
            &&& r.db_name@ == a.db_name@
            &&& r.db_user@ == a.db_user@
            &&& r.dump_file matches None
            &&& opt_view(r.container) == opt_view(a.docker_container)
        },
{
    match cmd {
        Commands::Dump(a) => ActionRequest {
            kind: ActionKind::Dump,
            db_name: a.db_name,
            db_user: a.db_user,
            dump_file: a.dump_file,
            container: a.docker_container,
        },
        Commands::Restore(a) => ActionRequest {
            kind: ActionKind::Restore,
            db_name: a.db_name,
            db_user: a.db_user,
            dump_file: Some(a.dump_file),
            container: a.docker_container,
        },
        Commands::Drop(a) => ActionRequest {
            kind: ActionKind::Drop,
            db_name: a.db_name,
            db_user: a.db_user,
            dump_file: None,
            container: a.docker_container,
        },
        Commands::Create(a) => ActionRequest {
            kind: ActionKind::Create,
            db_name: a.db_name,
            db_user: a.db_user,
            dump_file: None,
            container: a.docker_container,
        },
    }
}

/// The dump file path to use: the given one, or the default `db.dump`.
pub fn effective_dump_path(dump_file: &Option<String>) -> (p: String)
    ensures
        dump_file matches Some(f) ==> p@ == f@,
        dump_file matches None ==> p@ == "db.dump"@,
{
    match dump_file {
        Some(f) => f.clone(),
        None => "db.dump".to_owned(),
    }
}

/// The restore decision taken before anything is spawned.
pub enum RestorePlan {
    /// The dump file exists: spawn this invocation and stream the file
    /// into its standard input.
    Proceed(CommandSpec),
    /// The dump file does not exist: fail with the path; nothing may be
    /// spawned.
    Reject(Outcome),
}

/// Decides a restore request once the existence of the dump file at
/// `dump_path` is known.  When the file is missing no invocation is
/// produced, so no process can be spawned on that path.
pub fn plan_restore(req: &ActionRequest, dump_path: &String, dump_file_exists: bool) -> (p:
    RestorePlan)
    ensures
        dump_file_exists ==> (p matches RestorePlan::Proceed(c) && c@ == built_command(
            req.kind,
            req.db_name@,
            req.db_user@,
            opt_view(req.container),
        )),
        !dump_file_exists ==> (p matches RestorePlan::Reject(o) && o matches
            Outcome::PathNotFound(path) && path@ == dump_path@),
{
    if dump_file_exists {
        RestorePlan::Proceed(build_command(req))
    } else {
        RestorePlan::Reject(Outcome::PathNotFound(dump_path.clone()))
    }
}

/// Container indirection: naming a container makes the program the
/// container runtime client; the inner tool's name stands among the
/// arguments, right after the fixed prefix, followed by the inner
/// tool's own arguments — the inner tool is not invoked directly.
pub proof fn lemma_container_indirection(
    kind: ActionKind,
    db_name: Seq<char>,
    db_user: Seq<char>,
    container: Seq<char>,
)
    ensures
        built_command(kind, db_name, db_user, Some(container)).program == "docker"@,
        built_command(kind, db_name, db_user, Some(container)).args.len() == 4 + tool_args(
            kind,
            db_name,
            db_user,
        ).len(),
        built_command(kind, db_name, db_user, Some(container)).args[3] == tool_name(kind),
        built_command(kind, db_name, db_user, Some(container)).args.skip(4) == tool_args(
            kind,
            db_name,
            db_user,
        ),
{
    let args = built_command(kind, db_name, db_user, Some(container)).args;
    assert(args.skip(4) =~= tool_args(kind, db_name, db_user));
}

} // verus!
