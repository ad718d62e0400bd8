//! The command model: what to run on the pty and how to wire the child to it.
//!
//! The model records the caller's choices — program, arguments, environment
//! edits, working directory, credential changes, which standard streams the
//! caller overrode, and whether a custom pre-exec routine was attached — and
//! decides the spawn protocol from them: which streams receive subordinate
//! duplicates, and what the child's pre-exec sequence is. Every spawn carries
//! the session-setup step, so each child becomes a session leader with the
//! pty as controlling terminal; a custom routine is consumed by the spawn it
//! was attached for. The process-creation shell that actually forks replays
//! the recorded values and the prepared descriptors onto the operating
//! system.

use vstd::prelude::*;

use rustix::fd::OwnedFd;

use crate::error::Error;
use crate::pty::Pts;

verus! {

/// One recorded edit of the child's environment, replayed in order at spawn
/// time.
#[derive(Debug)]
pub enum EnvOp {
    /// Give the variable this value.
    Assign(String, String),
    /// Remove the variable.
    Unset(String),
    /// Clear the whole inherited environment.
    Clear,
}

/// The abstract form of one environment edit.
#[verifier::ext_equal]
pub enum EnvOpModel {
    Assign(Seq<char>, Seq<char>),
    Unset(Seq<char>),
    Clear,
}

impl DeepView for EnvOp {
    type V = EnvOpModel;

    open spec fn deep_view(&self) -> EnvOpModel {
        match *self {
            EnvOp::Assign(ref key, ref value) => EnvOpModel::Assign(key@, value@),
            EnvOp::Unset(ref key) => EnvOpModel::Unset(key@),
            EnvOp::Clear => EnvOpModel::Clear,
        }
    }
}

/// The abstract state of a command: everything the caller has recorded about
/// the child to spawn.
#[verifier::ext_equal]
pub struct CommandModel {
    pub program: Seq<char>,
    pub args: Seq<Seq<char>>,
    pub env: Seq<EnvOpModel>,
    pub current_dir: Option<Seq<char>>,
    pub stdin_overridden: bool,
    pub stdout_overridden: bool,
    pub stderr_overridden: bool,
    pub uid: Option<u32>,
    pub gid: Option<u32>,
    pub arg0: Option<Seq<char>>,
    /// Whether a custom pre-exec routine is attached and not yet consumed by
    /// a spawn.
    pub custom_pre_exec: bool,
}

/// A command to spawn onto a pty: a program with arguments, environment
/// edits, and the spawn protocol's bookkeeping.
#[derive(Debug)]
pub struct Command {
    program: String,
    args: Vec<String>,
    env: Vec<EnvOp>,
    current_dir: Option<String>,
    stdin_overridden: bool,
    stdout_overridden: bool,
    stderr_overridden: bool,
    uid: Option<u32>,
    gid: Option<u32>,
    arg0: Option<String>,
    custom_pre_exec: bool,
}

impl View for Command {
    type V = CommandModel;

    closed spec fn view(&self) -> CommandModel {
        CommandModel {
            program: self.program@,
            args: self.args.deep_view(),
            env: self.env.deep_view(),
            current_dir: self.current_dir.deep_view(),
            stdin_overridden: self.stdin_overridden,
            stdout_overridden: self.stdout_overridden,
            stderr_overridden: self.stderr_overridden,
            uid: self.uid,
            gid: self.gid,
            arg0: self.arg0.deep_view(),
            custom_pre_exec: self.custom_pre_exec,
        }
    }
}

/// The descriptors prepared for one spawn: a fresh subordinate duplicate for
/// each standard stream the caller did not override, and a close-on-exec
/// subordinate handle for the session-setup routine to use in the child.
#[derive(Debug)]
pub struct SpawnPrep {
    pub stdin: Option<OwnedFd>,
    pub stdout: Option<OwnedFd>,
    pub stderr: Option<OwnedFd>,
    pub session: Pts,
}

impl Command {
    /// A command that runs `program` with no arguments, the inherited
    /// environment, and all three standard streams attached to the pty.
    pub fn new(program: String) -> (r: Command)
        ensures
            r@ == (CommandModel {
                program: program@,
                args: Seq::<Seq<char>>::empty(),
                env: Seq::<EnvOpModel>::empty(),
                current_dir: None,
                stdin_overridden: false,
                stdout_overridden: false,
                stderr_overridden: false,
                uid: None,
                gid: None,
                arg0: None,
                custom_pre_exec: false,
            }),
    {
        let r = Command {
            program,
            args: Vec::new(),
            env: Vec::new(),
            current_dir: None,
            stdin_overridden: false,
            stdout_overridden: false,
            stderr_overridden: false,
            uid: None,
            gid: None,
            arg0: None,
            custom_pre_exec: false,
        };
        proof {
            assert(r.args.deep_view() =~= Seq::<Seq<char>>::empty());
            assert(r.env.deep_view() =~= Seq::<EnvOpModel>::empty());
        }
        r
    }

    /// Append one argument.
    pub fn arg(self, arg: String) -> (r: Command)
        ensures
            r@ == (CommandModel { args: self@.args.push(arg@), ..self@ }),
    {
        let ghost m = self@;
        let mut this = self;
        this.args.push(arg);
        proof {
            assert(this@ =~= (CommandModel { args: m.args.push(arg@), ..m }));
        }
        this
    }

    /// Append each of the given arguments, in order.
    pub fn args(self, args: Vec<String>) -> (r: Command)
        ensures
            r@ == (CommandModel { args: self@.args + args.deep_view(), ..self@ }),
    {
        let ghost m = self@;
        let mut this = self;
        let mut i: usize = 0;
        while i < args.len()
            invariant
                i <= args.len(),
                this@ == (CommandModel {
                    args: m.args + args.deep_view().take(i as int),
                    ..m
                }),
            decreases args.len() - i,
        {
            proof {
                assert(args.deep_view().take(i + 1 as int) =~= args.deep_view().take(
                    i as int,
                ).push(args.deep_view()[i as int]));
            }
            this = this.arg(args[i].clone());
            i = i + 1;
            proof {
                assert(this@ =~= (CommandModel {
                    args: m.args + args.deep_view().take(i as int),
                    ..m
                }));
            }
        }
        proof {
            assert(args.deep_view().take(args.len() as int) =~= args.deep_view());
            assert(this@ =~= (CommandModel { args: m.args + args.deep_view(), ..m }));
        }
        this
    }

    /// Record that the variable `key` is given the value `value` in the
    /// child's environment.
    pub fn env(self, key: String, value: String) -> (r: Command)
        ensures
            r@ == (CommandModel { env: self@.env.push(EnvOpModel::Assign(key@, value@)), ..self@ }),
    {
        let ghost m = self@;
        let mut this = self;
        this.env.push(EnvOp::Assign(key, value));
        proof {
            assert(this@ =~= (CommandModel {
                env: m.env.push(EnvOpModel::Assign(key@, value@)),
                ..m
            }));
        }
        this
    }

    /// Record each of the given variable assignments, in order.
    pub fn envs(self, vars: Vec<(String, String)>) -> (r: Command)
        ensures
            r@.env.len() == self@.env.len() + vars.len(),
            forall|i: int|
                0 <= i < self@.env.len() ==> r@.env[i] == self@.env[i],
            forall|i: int|
                0 <= i < vars@.len() ==> r@.env[self@.env.len() + i] == EnvOpModel::Assign(
                    vars.deep_view()[i].0,
                    vars.deep_view()[i].1,
                ),
            r@ == (CommandModel { env: r@.env, ..self@ }),
    {
        let ghost m = self@;
        let mut this = self;
        let mut i: usize = 0;
        while i < vars.len()
            invariant
                i <= vars.len(),
                this@.env.len() == m.env.len() + i,
                forall|j: int| 0 <= j < m.env.len() ==> this@.env[j] == m.env[j],
                forall|j: int|
                    0 <= j < i ==> this@.env[m.env.len() + j] == EnvOpModel::Assign(
                        vars.deep_view()[j].0,
                        vars.deep_view()[j].1,
                    ),
                this@ == (CommandModel { env: this@.env, ..m }),
            decreases vars.len() - i,
        {
            let pair = &vars[i];
            this = this.env(pair.0.clone(), pair.1.clone());
            i = i + 1;
        }
        this
    }

    /// Record that the variable `key` is removed from the child's
    /// environment.
    pub fn env_remove(self, key: String) -> (r: Command)
        ensures
            r@ == (CommandModel { env: self@.env.push(EnvOpModel::Unset(key@)), ..self@ }),
    {
        let ghost m = self@;
        let mut this = self;
        this.env.push(EnvOp::Unset(key));
        proof {
            assert(this@ =~= (CommandModel { env: m.env.push(EnvOpModel::Unset(key@)), ..m }));
        }
        this
    }

    /// Record that the child starts from an empty environment.
    pub fn env_clear(self) -> (r: Command)
        ensures
            r@ == (CommandModel { env: self@.env.push(EnvOpModel::Clear), ..self@ }),
    {
        let ghost m = self@;
        let mut this = self;
        this.env.push(EnvOp::Clear);
        proof {
            assert(this@ =~= (CommandModel { env: m.env.push(EnvOpModel::Clear), ..m }));
        }
        this
    }

    /// Set the child's working directory.
    pub fn current_dir(self, dir: String) -> (r: Command)
        ensures
            r@ == (CommandModel { current_dir: Some(dir@), ..self@ }),
    {
        let mut this = self;
        this.current_dir = Some(dir);
        this
    }

    /// Record that the caller supplies the child's standard input itself, so
    /// the spawn protocol must not attach the pty to it.
    pub fn override_stdin(self) -> (r: Command)
        ensures
            r@ == (CommandModel { stdin_overridden: true, ..self@ }),
    {
        let mut this = self;
        this.stdin_overridden = true;
        this
    }

    /// Record that the caller supplies the child's standard output itself.
    pub fn override_stdout(self) -> (r: Command)
        ensures
            r@ == (CommandModel { stdout_overridden: true, ..self@ }),
    {
        let mut this = self;
        this.stdout_overridden = true;
        this
    }

    /// Record that the caller supplies the child's standard error itself.
    pub fn override_stderr(self) -> (r: Command)
        ensures
            r@ == (CommandModel { stderr_overridden: true, ..self@ }),
    {
        let mut this = self;
        this.stderr_overridden = true;
        this
    }

    /// Run the child under this user id.
    pub fn uid(self, id: u32) -> (r: Command)
        ensures
            r@ == (CommandModel { uid: Some(id), ..self@ }),
    {
        let mut this = self;
        this.uid = Some(id);
        this
    }

    /// Run the child under this group id.
    pub fn gid(self, id: u32) -> (r: Command)
        ensures
            r@ == (CommandModel { gid: Some(id), ..self@ }),
    {
        let mut this = self;
        this.gid = Some(id);
        this
    }

    /// Record that a custom pre-exec routine is attached. The routine runs
    /// in the child of the next spawn, after the session-setup sequence, and
    /// is consumed by that spawn; the process-creation shell holds it, since
    /// it is foreign code.
    pub fn pre_exec(self) -> (r: Command)
        ensures
            r@ == (CommandModel { custom_pre_exec: true, ..self@ }),
    {
        let mut this = self;
        this.custom_pre_exec = true;
        this
    }

    /// Override the first element of the child's argument vector.
    pub fn arg0(self, arg: String) -> (r: Command)
        ensures
            r@ == (CommandModel { arg0: Some(arg@), ..self@ }),
    {
        let mut this = self;
        this.arg0 = Some(arg);
        this
    }

    /// Prepare one spawn of this command onto the given subordinate end.
    ///
    /// Duplicates the subordinate for exactly the standard streams the caller
    /// did not override; the remaining duplicates are released here, before
    /// the spawn. Every preparation produces a session handle, so every
    /// spawned child — the first and each later one alike — runs the
    /// identical ordered session-setup sequence. On success the custom
    /// pre-exec routine, if one was attached, is consumed: it runs in the
    /// child of this spawn only. A failed preparation leaves the command
    /// unchanged and is reported as [`Error::SpawnFailed`].
    pub fn prepare_spawn(&mut self, pts: &Pts) -> (r: Result<SpawnPrep, Error>)
        ensures
            r is Ok ==> final(self)@ == (CommandModel { custom_pre_exec: false, ..old(self)@ }),
            r is Err ==> final(self)@ == old(self)@,
            r matches Ok(prep) ==> {
                &&& prep.stdin is Some <==> !old(self)@.stdin_overridden
                &&& prep.stdout is Some <==> !old(self)@.stdout_overridden
                &&& prep.stderr is Some <==> !old(self)@.stderr_overridden
            },
            r matches Err(e) ==> e matches Error::SpawnFailed(_),
    {
        let (stdin, stdout, stderr) = match pts.setup_subprocess() {
            Ok(streams) => streams,
            Err(e) => return Err(e),
        };
        let session = match pts.session_handle() {
            Ok(handle) => handle,
            Err(e) => return Err(e),
        };
        self.custom_pre_exec = false;
        Ok(
            SpawnPrep {
                stdin: if self.stdin_overridden {
                    None
                } else {
                    Some(stdin)
                },
                stdout: if self.stdout_overridden {
                    None
                } else {
                    Some(stdout)
                },
                stderr: if self.stderr_overridden {
                    None
                } else {
                    Some(stderr)
                },
                session,
            },
        )
    }

    /// The program to run.
    pub fn program(&self) -> (r: &String)
        ensures
            r@ == self@.program,
    {
        &self.program
    }

    /// The recorded arguments, in order.
    pub fn arg_list(&self) -> (r: &Vec<String>)
        ensures
            r.deep_view() == self@.args,
    {
        &self.args
    }

    /// The recorded environment edits, in order.
    pub fn env_ops(&self) -> (r: &Vec<EnvOp>)
        ensures
            r.deep_view() == self@.env,
    {
        &self.env
    }

    /// The recorded working directory, if any.
    pub fn dir(&self) -> (r: &Option<String>)
        ensures
            r.deep_view() == self@.current_dir,
    {
        &self.current_dir
    }

    /// The recorded user id, if any.
    pub fn uid_value(&self) -> (r: Option<u32>)
        ensures
            r == self@.uid,
    {
        self.uid
    }

    /// The recorded group id, if any.
    pub fn gid_value(&self) -> (r: Option<u32>)
        ensures
            r == self@.gid,
    {
        self.gid
    }

    /// The recorded argument-vector override, if any.
    pub fn arg0_value(&self) -> (r: &Option<String>)
        ensures
            r.deep_view() == self@.arg0,
    {
        &self.arg0
    }
}

} // verus!
