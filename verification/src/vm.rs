//! The virtual machine: owns the program's command list, the function
//! table, the execution context and the registers, and drives the
//! control-flow-aware execution loop.
//!
//! Execution is a small-step machine specified by `spec_step`.  Pure
//! commands transform the context; a command that needs outside work (a
//! shell run, a line of input, a library routine) pauses the machine with a
//! pending effect, and `resume` applies what the caller performed.  `ABORT`
//! ends the run through its own outcome, distinct from the error channel.

use vstd::pervasive::VecAdditionalExecFns;
use vstd::prelude::*;
use vstd::string::*;

use crate::command::clone_command;
use crate::command::clone_commands;
use crate::command::clone_strings;
use crate::command::spec_assign_ctx;
use crate::command::spec_cmd_name;
use crate::command::spec_eqcheck_ctx;
use crate::command::spec_expand;
use crate::command::spec_if_ctx;
use crate::command::spec_insert;
use crate::command::spec_is_control_flow;
use crate::command::spec_lookup;
use crate::command::spec_print_ctx;
use crate::command::spec_should_skip;
use crate::command::CmdV;
use crate::command::Command;
use crate::command::CtxV;
use crate::command::Effect;
use crate::command::EffectResult;
use crate::command::EffectResultV;
use crate::command::EffectV;
use crate::command::ExecutionContext;
use crate::libraries::spec_lib_request;
use crate::libraries::LibraryExecutor;
use crate::parser::spec_parse_line;
use crate::parser::spec_parser_init;
use crate::parser::Parser;
use crate::parser::ParserV;
use crate::text::chars_of;
use crate::text::spec_lines;
use crate::text::spec_trim;
use crate::text::split_lines;
use crate::text::str_eq;
use crate::text::string_of;
use crate::text::trim_chars;

verus! {

broadcast use {vstd::seq::group_seq_axioms, crate::text::lemma_vec_deep_view};

// ---------------------------------------------------------------------------
// The function table: names to raw body lines, first match wins, insertion
// replaces in place or appends.
// ---------------------------------------------------------------------------

/// The body bound to function `k`, if any.
pub open spec fn spec_fns_lookup(
    fs: Seq<(Seq<char>, Seq<Seq<char>>)>,
    k: Seq<char>,
) -> Option<Seq<Seq<char>>>
    decreases fs.len(),
{
    if fs.len() == 0 {
        None
    } else if fs[0].0 == k {
        Some(fs[0].1)
    } else {
        spec_fns_lookup(fs.drop_first(), k)
    }
}

/// The table with `k` bound to `body`.
pub open spec fn spec_fns_insert(
    fs: Seq<(Seq<char>, Seq<Seq<char>>)>,
    k: Seq<char>,
    body: Seq<Seq<char>>,
) -> Seq<(Seq<char>, Seq<Seq<char>>)>
    decreases fs.len(),
{
    if fs.len() == 0 {
        seq![(k, body)]
    } else if fs[0].0 == k {
        seq![(k, body)] + fs.drop_first()
    } else {
        seq![fs[0]] + spec_fns_insert(fs.drop_first(), k, body)
    }
}

// ---------------------------------------------------------------------------
// Frames and machine state.
// ---------------------------------------------------------------------------

/// An execution frame: a list of commands being run, or the raw lines of a
/// function body being re-parsed and run one by one.
pub enum Frame {
    Cmds { cmds: Vec<Command>, idx: usize },
    Body { lines: Vec<String>, idx: usize },
}

/// The ghost model of a frame.
pub ghost enum FrameV {
    Cmds { cmds: Seq<CmdV>, idx: int },
    Body { lines: Seq<Seq<char>>, idx: int },
}

impl View for Frame {
    type V = FrameV;

    open spec fn view(&self) -> FrameV {
        match self {
            Frame::Cmds { cmds, idx } => FrameV::Cmds {
                cmds: cmds.deep_view(),
                idx: *idx as int,
            },
            Frame::Body { lines, idx } => FrameV::Body {
                lines: lines.deep_view(),
                idx: *idx as int,
            },
        }
    }
}

impl DeepView for Frame {
    type V = FrameV;

    open spec fn deep_view(&self) -> FrameV {
        self.view()
    }
}

/// The ghost model of the whole machine.
pub ghost struct VmV {
    pub commands: Seq<CmdV>,
    pub ctx: CtxV,
    pub parser: ParserV,
    pub functions: Seq<(Seq<char>, Seq<Seq<char>>)>,
    pub call_stack: Seq<usize>,
    pub current_line: int,
    pub current_fn: Option<(Seq<char>, Seq<Seq<char>>)>,
    pub registers: Seq<(Seq<char>, Seq<char>)>,
    pub frames: Seq<FrameV>,
    pub pending: Option<EffectV>,
}

/// The state a fresh machine starts from.
pub open spec fn spec_vm_init() -> VmV {
    VmV {
        commands: Seq::empty(),
        ctx: crate::command::spec_ctx_init(),
        parser: spec_parser_init(),
        functions: Seq::empty(),
        call_stack: Seq::empty(),
        current_line: 0,
        current_fn: None,
        registers: Seq::empty(),
        frames: Seq::empty(),
        pending: None,
    }
}

/// What one step of the machine yields.
pub ghost enum StepResV {
    Progress,
    DoneAll,
    Paused(EffectV),
    Stopped(Seq<char>),
    Failed(Seq<char>),
}

pub enum StepRes {
    Progress,
    DoneAll,
    Paused(Effect),
    Stopped(String),
}

/// The view of an executable step result.
pub open spec fn step_res_view(r: Result<StepRes, String>) -> StepResV {
    match r {
        Ok(StepRes::Progress) => StepResV::Progress,
        Ok(StepRes::DoneAll) => StepResV::DoneAll,
        Ok(StepRes::Paused(e)) => StepResV::Paused(e@),
        Ok(StepRes::Stopped(m)) => StepResV::Stopped(m@),
        Err(e) => StepResV::Failed(e@),
    }
}

/// What executing one command does to the machine, the current frame
/// position having already advanced past it.
pub open spec fn spec_exec_cmd(s: VmV, c: CmdV) -> (VmV, StepResV) {
    match c {
        CmdV::Def { name, value } => (
            VmV { ctx: spec_assign_ctx(s.ctx, name, value), ..s },
            StepResV::Progress,
        ),
        CmdV::Mov { name, value } => (
            VmV { ctx: spec_assign_ctx(s.ctx, name, value), ..s },
            StepResV::Progress,
        ),
        CmdV::Eq { left, right } => (
            VmV { ctx: spec_eqcheck_ctx(s.ctx, left, right, true), ..s },
            StepResV::Progress,
        ),
        CmdV::Neq { left, right } => (
            VmV { ctx: spec_eqcheck_ctx(s.ctx, left, right, false), ..s },
            StepResV::Progress,
        ),
        CmdV::If { expected, var, op } => match spec_if_ctx(s.ctx, var, op, expected) {
            Ok(c2) => (VmV { ctx: c2, ..s }, StepResV::Progress),
            Err(e) => (s, StepResV::Failed(e)),
        },
        CmdV::EndIf => (VmV { ctx: (CtxV { skip: None, ..s.ctx }), ..s }, StepResV::Progress),
        CmdV::Print { text } => match spec_print_ctx(s.ctx, text) {
            Ok(c2) => (VmV { ctx: c2, ..s }, StepResV::Progress),
            Err(e) => (s, StepResV::Failed(e)),
        },
        CmdV::Abort { message } => (s, StepResV::Stopped(message)),
        CmdV::EndFn => (s, StepResV::Progress),
        CmdV::FnDef { name, body } => (
            VmV { functions: spec_fns_insert(s.functions, name, body), ..s },
            StepResV::Progress,
        ),
        CmdV::FnCall { name } => match spec_fns_lookup(s.functions, name) {
            None => (s, StepResV::Failed("Function '"@ + name + "' not found"@)),
            Some(body) => (
                VmV {
                    call_stack: s.call_stack.push(s.current_line as usize),
                    frames: s.frames.push(FrameV::Body { lines: body, idx: 0 }),
                    ..s
                },
                StepResV::Progress,
            ),
        },
        CmdV::Input { var } => {
            let e = EffectV::ReadLine { var };
            (VmV { pending: Some(e), ..s }, StepResV::Paused(e))
        },
        CmdV::Exec { cmd } => {
            let e = EffectV::Shell { cmd: spec_expand(s.ctx.vars, cmd) };
            (VmV { pending: Some(e), ..s }, StepResV::Paused(e))
        },
        CmdV::Npm { cmd } => {
            let e = EffectV::Npm { cmd: spec_expand(s.ctx.vars, cmd) };
            (VmV { pending: Some(e), ..s }, StepResV::Paused(e))
        },
        CmdV::LibCall { name } => match spec_lib_request(name, s.ctx.vars) {
            Err(e) => (s, StepResV::Failed(e)),
            Ok(eff) => (VmV { pending: Some(eff), ..s }, StepResV::Paused(eff)),
        },
        CmdV::Multi { cmds } => (
            VmV { frames: s.frames.push(FrameV::Cmds { cmds, idx: 0 }), ..s },
            StepResV::Progress,
        ),
    }
}

/// As `spec_exec_cmd`, but a command that the skip marker covers (and that
/// is not control flow) does nothing.
pub open spec fn spec_exec_guarded(s: VmV, c: CmdV) -> (VmV, StepResV) {
    if spec_should_skip(s.ctx.skip, spec_cmd_name(c)) && !spec_is_control_flow(c) {
        (s, StepResV::Progress)
    } else {
        spec_exec_cmd(s, c)
    }
}

/// One step of the machine: take the next item of the top frame, parse it
/// if it is a raw body line, and execute it under the skip guard.  An
/// exhausted frame is popped (restoring the bookkeeping line marker for a
/// function body); an empty frame stack means the run is done.
pub open spec fn spec_step(s: VmV) -> (VmV, StepResV) {
    if s.pending is Some {
        (s, StepResV::DoneAll)
    } else if s.frames.len() == 0 {
        (s, StepResV::DoneAll)
    } else {
        match s.frames.last() {
            FrameV::Cmds { cmds, idx } => {
                if idx >= cmds.len() {
                    (VmV { frames: s.frames.drop_last(), ..s }, StepResV::Progress)
                } else {
                    let c = cmds[idx];
                    let s1 = VmV {
                        frames: s.frames.drop_last().push(
                            FrameV::Cmds { cmds, idx: idx + 1 },
                        ),
                        ..s
                    };
                    spec_exec_guarded(s1, c)
                }
            },
            FrameV::Body { lines, idx } => {
                if idx >= lines.len() {
                    let s1 = VmV { frames: s.frames.drop_last(), ..s };
                    if s.call_stack.len() > 0 {
                        (
                            VmV {
                                current_line: s.call_stack.last() as int,
                                call_stack: s.call_stack.drop_last(),
                                ..s1
                            },
                            StepResV::Progress,
                        )
                    } else {
                        (s1, StepResV::Progress)
                    }
                } else {
                    let line = lines[idx];
                    let (p2, pr) = spec_parse_line(s.parser, line);
                    let s1 = VmV {
                        parser: p2,
                        frames: s.frames.drop_last().push(
                            FrameV::Body { lines, idx: idx + 1 },
                        ),
                        ..s
                    };
                    match pr {
                        Err(e) => (s1, StepResV::Failed(e)),
                        Ok(None) => (s1, StepResV::Progress),
                        Ok(Some(c)) => spec_exec_guarded(s1, c),
                    }
                }
            },
        }
    }
}

/// `s1` is reached from `s0` by exactly `n` steps, each of which made
/// progress.
pub open spec fn prog_steps(s0: VmV, s1: VmV, n: nat) -> bool
    decreases n,
{
    if n == 0 {
        s0 == s1
    } else {
        spec_step(s0).1 is Progress && prog_steps(spec_step(s0).0, s1, (n - 1) as nat)
    }
}

/// Whether an effect result answers the pending effect.
pub open spec fn spec_pending_matches(p: Option<EffectV>, r: EffectResultV) -> bool {
    match p {
        None => false,
        Some(e) => match (e, r) {
            (EffectV::ReadLine { .. }, EffectResultV::ReadLine { .. }) => true,
            (EffectV::Shell { .. }, EffectResultV::Shell { .. }) => true,
            (EffectV::Npm { .. }, EffectResultV::Npm { .. }) => true,
            (EffectV::Git { .. }, EffectResultV::Git { .. }) => true,
            (EffectV::HttpGet { .. }, EffectResultV::HttpGet { .. }) => true,
            (EffectV::WriteFile { .. }, EffectResultV::WriteFile) => true,
            _ => false,
        },
    }
}

/// One variable binding applied to the machine.
pub open spec fn vm_set_var(s: VmV, name: Seq<char>, value: Seq<char>) -> VmV {
    VmV { ctx: (CtxV { vars: spec_insert(s.ctx.vars, name, value), ..s.ctx }), ..s }
}

/// What applying an effect result to the paused machine does: the state
/// with the effect's conventional variables written back and the pending
/// effect cleared, and the error that ends the run, if any.
pub open spec fn spec_apply(s: VmV, r: EffectResultV) -> (VmV, Option<Seq<char>>) {
    let cleared = VmV { pending: None, ..s };
    match (s.pending, r) {
        (Some(EffectV::ReadLine { var }), EffectResultV::ReadLine { line }) => (
            vm_set_var(cleared, var, spec_trim(line)),
            None,
        ),
        (Some(EffectV::Shell { .. }), EffectResultV::Shell { spawn_error, stdout, success, status }) => match spawn_error {
            Some(e) => (cleared, Some("Failed to execute command: "@ + e)),
            None => {
                let s1 = vm_set_var(cleared, "exec_stdout"@, stdout);
                let s2 = vm_set_var(s1, "exec_status"@, status);
                if !success {
                    (s2, Some("Command failed with exit code: "@ + status))
                } else {
                    (s2, None)
                }
            },
        },
        (Some(EffectV::Npm { .. }), EffectResultV::Npm { spawn_error }) => match spawn_error {
            Some(e) => (cleared, Some("Failed to execute NPM command: "@ + e)),
            None => (cleared, None),
        },
        (Some(EffectV::Git { .. }), EffectResultV::Git { spawn_error, stdout, success, status }) => match spawn_error {
            Some(e) => (cleared, Some("Failed to execute git command: "@ + e)),
            None => {
                let s1 = vm_set_var(cleared, "exec_stdout"@, stdout);
                if !success {
                    (s1, Some("Git command failed with exit code: "@ + status))
                } else {
                    (s1, None)
                }
            },
        },
        (Some(EffectV::HttpGet { .. }), EffectResultV::HttpGet { body }) => (
            vm_set_var(cleared, "http_get_body"@, body),
            None,
        ),
        (Some(EffectV::WriteFile { .. }), EffectResultV::WriteFile) => (cleared, None),
        _ => (cleared, None),
    }
}

// ---------------------------------------------------------------------------
// Loading.
// ---------------------------------------------------------------------------

/// What one loaded line does to the machine: parse it, then route the
/// command.  FN opens body collection, ENDFN closes it, anything else is
/// collected into the open body or appended to the program.
pub open spec fn spec_process_line(s: VmV, line: Seq<char>) -> Result<VmV, Seq<char>> {
    let (p2, pr) = spec_parse_line(s.parser, line);
    let s1 = VmV { parser: p2, ..s };
    match pr {
        Err(e) => Err(e),
        Ok(None) => Ok(s1),
        Ok(Some(c)) => spec_handle_command(s1, c, line),
    }
}

/// How a freshly parsed command is routed at load time.
pub open spec fn spec_handle_command(s: VmV, c: CmdV, line: Seq<char>) -> Result<VmV, Seq<char>> {
    match c {
        CmdV::FnDef { .. } => {
            if s.current_fn is Some {
                Err("Nested function definition"@)
            } else {
                Ok(VmV { current_fn: Some((s.parser.last_args[1], Seq::empty())), ..s })
            }
        },
        CmdV::EndFn => match s.current_fn {
            Some((name, body)) => Ok(
                VmV {
                    current_fn: None,
                    functions: spec_fns_insert(s.functions, name, body),
                    ..s
                },
            ),
            None => Err("ENDFN without matching FN"@),
        },
        _ => match s.current_fn {
            Some((name, body)) => Ok(
                VmV { current_fn: Some((name, body.push(line))), ..s },
            ),
            None => Ok(VmV { commands: s.commands.push(c), ..s }),
        },
    }
}

/// What loading the lines from index `i` on does: blank lines are skipped
/// without touching the parser, and the first error stops the load.
pub open spec fn spec_load_lines(s: VmV, lines: Seq<Seq<char>>, i: nat) -> Result<VmV, Seq<char>>
    decreases lines.len() - i,
{
    if i >= lines.len() {
        Ok(s)
    } else {
        let t = spec_trim(lines[i as int]);
        if t.len() == 0 {
            spec_load_lines(s, lines, i + 1)
        } else {
            match spec_process_line(s, t) {
                Err(e) => Err(e),
                Ok(s2) => spec_load_lines(s2, lines, i + 1),
            }
        }
    }
}

/// What loading a whole script does: reset the parser, process every
/// non-blank line, and reject a function left open at the end.
pub open spec fn spec_load(s: VmV, script: Seq<char>) -> Result<VmV, Seq<char>> {
    let s0 = VmV { parser: spec_parser_init(), ..s };
    match spec_load_lines(s0, spec_lines(script), 0) {
        Err(e) => Err(e),
        Ok(s2) => if s2.current_fn is Some {
            Err("Unclosed function definition"@)
        } else {
            Ok(s2)
        },
    }
}

// ---------------------------------------------------------------------------
// The machine.
// ---------------------------------------------------------------------------

/// The virtual machine.
pub struct VM {
    commands: Vec<Command>,
    context: ExecutionContext,
    parser: Parser,
    functions: Vec<(String, Vec<String>)>,
    call_stack: Vec<usize>,
    current_line: usize,
    current_fn: Option<(String, Vec<String>)>,
    registers: Vec<(String, String)>,
    frames: Vec<Frame>,
    pending: Option<Effect>,
}

impl View for VM {
    type V = VmV;

    closed spec fn view(&self) -> VmV {
        VmV {
            commands: self.commands.deep_view(),
            ctx: self.context@,
            parser: self.parser@,
            functions: self.functions.deep_view(),
            call_stack: self.call_stack@,
            current_line: self.current_line as int,
            current_fn: match self.current_fn {
                Some((ref n, ref b)) => Some((n@, b.deep_view())),
                None => None,
            },
            registers: self.registers.deep_view(),
            frames: self.frames.deep_view(),
            pending: match self.pending {
                Some(ref e) => Some(e@),
                None => None,
            },
        }
    }
}

impl VM {
    /// Creates an empty machine.
    pub fn new() -> (r: VM)
        ensures
            r@ == spec_vm_init(),
    {
        let r = VM {
            commands: Vec::new(),
            context: ExecutionContext::new(),
            parser: Parser::new(),
            functions: Vec::new(),
            call_stack: Vec::new(),
            current_line: 0,
            current_fn: None,
            registers: Vec::new(),
            frames: Vec::new(),
            pending: None,
        };
        proof {
            assert(r@.commands =~= spec_vm_init().commands);
            assert(r@.functions =~= spec_vm_init().functions);
            assert(r@.call_stack =~= spec_vm_init().call_stack);
            assert(r@.registers =~= spec_vm_init().registers);
            assert(r@.frames =~= spec_vm_init().frames);
        }
        r
    }

    /// Appends a command to the machine's program.
    pub fn add_command(&mut self, command: Command)
        ensures
            final(self)@ == (VmV {
                commands: old(self)@.commands.push(command@),
                ..old(self)@
            }),
    {
        let ghost cv = command@;
        self.commands.push(command);
        proof {
            assert(self.commands.deep_view() =~= old(self).commands.deep_view().push(cv));
        }
    }

    /// Defines (or redefines) a function with the given raw body lines.
    #[verifier::loop_isolation(false)]
    pub fn define_function(&mut self, name: &str, body: Vec<String>) -> (r: Result<(), String>)
        ensures
            r is Ok,
            final(self)@ == (VmV {
                functions: spec_fns_insert(old(self)@.functions, name@, body.deep_view()),
                ..old(self)@
            }),
    {
        let ghost dv = self.functions.deep_view();
        let ghost bv = body.deep_view();
        let mut s = String::new();
        s.append(name);
        let n: usize = self.functions.len();
        let mut i: usize = 0;
        proof {
            assert(dv.skip(0) =~= dv);
            assert(dv.take(0) =~= Seq::<(Seq<char>, Seq<Seq<char>>)>::empty());
        }
        while i < n
            invariant
                i <= n,
                n == self.functions.len(),
                dv == self.functions.deep_view(),
                *self == *old(self),
                s@ == name@,
                spec_fns_insert(dv, name@, bv) == dv.take(i as int) + spec_fns_insert(
                    dv.skip(i as int),
                    name@,
                    bv,
                ),
            decreases n - i,
        {
            proof {
                assert(dv.skip(i as int)[0] == dv[i as int]);
                assert(dv.skip(i as int).drop_first() =~= dv.skip(i as int + 1));
            }
            let hit = str_eq(self.functions[i].0.as_str(), name);
            if hit {
                self.functions.set(i, (s, body));
                proof {
                    assert(self.functions.deep_view() =~= dv.take(i as int) + (seq![(name@, bv)]
                        + dv.skip(i as int + 1)));
                }
                return Ok(());
            }
            proof {
                assert(dv.take(i as int) + (seq![dv[i as int]] + spec_fns_insert(
                    dv.skip(i as int + 1),
                    name@,
                    bv,
                )) =~= dv.take(i as int + 1) + spec_fns_insert(dv.skip(i as int + 1), name@, bv));
            }
            i = i + 1;
        }
        self.functions.push((s, body));
        proof {
            assert(dv.skip(n as int) =~= Seq::<(Seq<char>, Seq<Seq<char>>)>::empty());
            assert(dv.take(n as int) =~= dv);
            assert(self.functions.deep_view() =~= dv.take(n as int) + spec_fns_insert(
                dv.skip(n as int),
                name@,
                bv,
            ));
        }
        Ok(())
    }

    /// The raw body lines of a function, cloned, if the function exists.
    #[verifier::loop_isolation(false)]
    pub fn get_function(&self, name: &str) -> (r: Option<Vec<String>>)
        ensures
            (match r {
                Some(b) => spec_fns_lookup(self@.functions, name@) == Some(b.deep_view()),
                None => spec_fns_lookup(self@.functions, name@) is None,
            }),
    {
        let ghost dv = self.functions.deep_view();
        let n: usize = self.functions.len();
        let mut i: usize = 0;
        proof {
            assert(dv.skip(0) =~= dv);
        }
        while i < n
            invariant
                i <= n,
                spec_fns_lookup(dv, name@) == spec_fns_lookup(dv.skip(i as int), name@),
            decreases n - i,
        {
            proof {
                assert(dv.skip(i as int)[0] == dv[i as int]);
                assert(dv.skip(i as int).drop_first() =~= dv.skip(i as int + 1));
            }
            let hit = str_eq(self.functions[i].0.as_str(), name);
            if hit {
                return Some(clone_strings(&self.functions[i].1));
            }
            i = i + 1;
        }
        proof {
            assert(dv.skip(n as int) =~= Seq::<(Seq<char>, Seq<Seq<char>>)>::empty());
        }
        None
    }

    /// Schedules a call of a defined function: the body lines become a new
    /// frame that the run loop re-parses and executes one by one against
    /// the live context, and the bookkeeping marker is pushed.
    pub fn call_function(&mut self, name: &str) -> (r: Result<(), String>)
        ensures
            (match r {
                Ok(_) => spec_fns_lookup(old(self)@.functions, name@) matches Some(body)
                    && final(self)@ == (VmV {
                    call_stack: old(self)@.call_stack.push(old(self).current_line_spec()),
                    frames: old(self)@.frames.push(FrameV::Body { lines: body, idx: 0 }),
                    ..old(self)@
                }),
                Err(e) => spec_fns_lookup(old(self)@.functions, name@) is None && e@
                    == "Function '"@ + name@ + "' not found"@
                    && *final(self) == *old(self),
            }),
    {
        let body = match self.get_function(name) {
            None => {
                let mut e = String::from_str("Function '");
                e.append(name);
                e.append("' not found");
                return Err(e);
            },
            Some(b) => b,
        };
        self.call_stack.push(self.current_line);
        let ghost fv = FrameV::Body { lines: body.deep_view(), idx: 0 };
        self.frames.push(Frame::Body { lines: body, idx: 0 });
        proof {
            assert(self.call_stack@ =~= old(self).call_stack@.push(old(self).current_line));
            assert(self.frames.deep_view() =~= old(self).frames.deep_view().push(fv));
        }
        Ok(())
    }

    /// The machine's notion of the current line, for the bookkeeping stack.
    pub closed spec fn current_line_spec(&self) -> usize {
        self.current_line
    }

    /// Whether the machine is paused on an effect, waiting for `resume`.
    pub fn is_paused(&self) -> (r: bool)
        ensures
            r == (self@.pending is Some),
    {
        self.pending.is_some()
    }

    /// The variable bound to `name` in the context, cloned.
    pub fn get_variable(&self, name: &str) -> (r: Option<String>)
        ensures
            (match r {
                Some(v) => spec_lookup(self@.ctx.vars, name@) == Some(v@),
                None => spec_lookup(self@.ctx.vars, name@) is None,
            }),
    {
        self.context.get_variable(name)
    }

    /// The output lines produced so far, cloned.
    pub fn output_lines(&self) -> (r: Vec<String>)
        ensures
            r.deep_view() == self@.ctx.output,
    {
        clone_strings(&self.context.output)
    }

    /// Binds a register.
    pub fn set_register(&mut self, name: &str, value: String)
        ensures
            final(self)@ == (VmV {
                registers: spec_insert(old(self)@.registers, name@, value@),
                ..old(self)@
            }),
    {
        let ghost dv = self.registers.deep_view();
        let mut s = String::new();
        s.append(name);
        set_pair(&mut self.registers, s, value);
        proof {
            assert(self.registers.deep_view() == spec_insert(dv, name@, value@));
        }
    }

    /// The value of a register, cloned.
    pub fn get_register(&self, name: &str) -> (r: Option<String>)
        ensures
            (match r {
                Some(v) => spec_lookup(self@.registers, name@) == Some(v@),
                None => spec_lookup(self@.registers, name@) is None,
            }),
    {
        get_pair(&self.registers, name)
    }

    /// Unbinds a register.
    #[verifier::loop_isolation(false)]
    pub fn clear_register(&mut self, name: &str)
        ensures
            final(self)@ == (VmV {
                registers: spec_pairs_remove(old(self)@.registers, name@),
                ..old(self)@
            }),
    {
        let ghost dv = self.registers.deep_view();
        let n: usize = self.registers.len();
        let mut i: usize = 0;
        proof {
            assert(dv.skip(0) =~= dv);
            assert(dv.take(0) =~= Seq::<(Seq<char>, Seq<char>)>::empty());
        }
        while i < n
            invariant
                i <= n,
                n == self.registers.len(),
                dv == self.registers.deep_view(),
                *self == *old(self),
                spec_pairs_remove(dv, name@) == dv.take(i as int) + spec_pairs_remove(
                    dv.skip(i as int),
                    name@,
                ),
                forall|k: int| 0 <= k < i ==> dv[k].0 != name@,
            decreases n - i,
        {
            proof {
                assert(dv.skip(i as int)[0] == dv[i as int]);
                assert(dv.skip(i as int).drop_first() =~= dv.skip(i as int + 1));
            }
            let hit = str_eq(self.registers[i].0.as_str(), name);
            if hit {
                self.registers.remove(i);
                proof {
                    assert(self.registers.deep_view() =~= dv.take(i as int) + dv.skip(
                        i as int + 1,
                    ));
                }
                return ;
            }
            proof {
                assert(dv.take(i as int) + (seq![dv[i as int]] + spec_pairs_remove(
                    dv.skip(i as int + 1),
                    name@,
                )) =~= dv.take(i as int + 1) + spec_pairs_remove(dv.skip(i as int + 1), name@));
            }
            i = i + 1;
        }
        proof {
            assert(dv.skip(n as int) =~= Seq::<(Seq<char>, Seq<char>)>::empty());
            assert(dv.take(n as int) + spec_pairs_remove(dv.skip(n as int), name@) =~= dv);
        }
    }

    /// Unbinds every register.
    pub fn clear_all_registers(&mut self)
        ensures
            final(self)@ == (VmV { registers: Seq::empty(), ..old(self)@ }),
    {
        self.registers.clear();
        proof {
            assert(self.registers.deep_view() =~= Seq::<(Seq<char>, Seq<char>)>::empty());
        }
    }
}

/// The pair list without the first binding for `k`.
pub open spec fn spec_pairs_remove(
    ps: Seq<(Seq<char>, Seq<char>)>,
    k: Seq<char>,
) -> Seq<(Seq<char>, Seq<char>)>
    decreases ps.len(),
{
    if ps.len() == 0 {
        ps
    } else if ps[0].0 == k {
        ps.drop_first()
    } else {
        seq![ps[0]] + spec_pairs_remove(ps.drop_first(), k)
    }
}

/// Inserts into a pair list: the first binding for the key is replaced, or
/// a new pair is appended.
#[verifier::loop_isolation(false)]
pub fn set_pair(ps: &mut Vec<(String, String)>, name: String, value: String)
    ensures
        final(ps).deep_view() == spec_insert(old(ps).deep_view(), name@, value@),
{
    let ghost dv = ps.deep_view();
    let n: usize = ps.len();
    let mut i: usize = 0;
    proof {
        assert(dv.skip(0) =~= dv);
        assert(dv.take(0) =~= Seq::<(Seq<char>, Seq<char>)>::empty());
    }
    while i < n
        invariant
            i <= n,
            n == ps.len(),
            dv == ps.deep_view(),
            *ps == *old(ps),
            spec_insert(dv, name@, value@) == dv.take(i as int) + spec_insert(
                dv.skip(i as int),
                name@,
                value@,
            ),
        decreases n - i,
    {
        proof {
            assert(dv.skip(i as int)[0] == dv[i as int]);
            assert(dv.skip(i as int).drop_first() =~= dv.skip(i as int + 1));
        }
        let hit = str_eq(ps[i].0.as_str(), name.as_str());
        if hit {
            ps.set(i, (name, value));
            proof {
                assert(ps.deep_view() =~= dv.take(i as int) + (seq![(name@, value@)] + dv.skip(
                    i as int + 1,
                )));
            }
            return ;
        }
        proof {
            assert(dv.take(i as int) + (seq![dv[i as int]] + spec_insert(
                dv.skip(i as int + 1),
                name@,
                value@,
            )) =~= dv.take(i as int + 1) + spec_insert(dv.skip(i as int + 1), name@, value@));
        }
        i = i + 1;
    }
    ps.push((name, value));
    proof {
        assert(dv.skip(n as int) =~= Seq::<(Seq<char>, Seq<char>)>::empty());
        assert(dv.take(n as int) =~= dv);
        assert(ps.deep_view() =~= dv.take(n as int) + spec_insert(
            dv.skip(n as int),
            name@,
            value@,
        ));
    }
}

/// Looks a key up in a pair list, cloning the value of the first match.
#[verifier::loop_isolation(false)]
pub fn get_pair(ps: &Vec<(String, String)>, name: &str) -> (r: Option<String>)
    ensures
        (match r {
            Some(v) => spec_lookup(ps.deep_view(), name@) == Some(v@),
            None => spec_lookup(ps.deep_view(), name@) is None,
        }),
{
    let ghost dv = ps.deep_view();
    let n: usize = ps.len();
    let mut i: usize = 0;
    proof {
        assert(dv.skip(0) =~= dv);
    }
    while i < n
        invariant
            i <= n,
            spec_lookup(dv, name@) == spec_lookup(dv.skip(i as int), name@),
        decreases n - i,
    {
        proof {
            assert(dv.skip(i as int)[0] == dv[i as int]);
            assert(dv.skip(i as int).drop_first() =~= dv.skip(i as int + 1));
        }
        let hit = str_eq(ps[i].0.as_str(), name);
        if hit {
            return Some(ps[i].1.clone());
        }
        i = i + 1;
    }
    proof {
        assert(dv.skip(n as int) =~= Seq::<(Seq<char>, Seq<char>)>::empty());
    }
    None
}


impl VM {
    /// One step of the machine, exactly as `spec_step` says.  The caller
    /// drives the loop: on `Paused` it performs the effect and hands the
    /// result to `resume` before stepping on.
    pub fn step(&mut self) -> (r: Result<StepRes, String>)
        requires
            old(self)@.pending is None,
        ensures
            final(self)@ == spec_step(old(self)@).0,
            step_res_view(r) == spec_step(old(self)@).1,
    {
        if self.frames.len() == 0 {
            return Ok(StepRes::DoneAll);
        }
        let ghost frames0 = self.frames.deep_view();
        let fr = match self.frames.pop() {
            Some(fr) => fr,
            None => {
                proof {
                    assert(false);
                }
                return Ok(StepRes::DoneAll);
            },
        };
        proof {
            assert(fr@ == frames0.last());
            assert(self.frames.deep_view() =~= frames0.drop_last());
        }
        match fr {
            Frame::Cmds { cmds, idx } => {
                if idx >= cmds.len() {
                    return Ok(StepRes::Progress);
                }
                let c = clone_command(&cmds[idx]);
                self.frames.push(Frame::Cmds { cmds, idx: idx + 1 });
                proof {
                    assert(self.frames.deep_view() =~= frames0.drop_last().push(
                        self.frames.deep_view().last(),
                    ));
                }
                self.exec_guarded(c)
            },
            Frame::Body { lines, idx } => {
                if idx >= lines.len() {
                    if self.call_stack.len() > 0 {
                        match self.call_stack.pop() {
                            Some(rl) => {
                                self.current_line = rl;
                                proof {
                                    assert(self.call_stack@ =~= old(self).call_stack@.drop_last());
                                }
                            },
                            None => {
                                proof {
                                    assert(false);
                                }
                            },
                        }
                    }
                    return Ok(StepRes::Progress);
                }
                let line = lines[idx].clone();
                self.frames.push(Frame::Body { lines, idx: idx + 1 });
                proof {
                    assert(self.frames.deep_view() =~= frames0.drop_last().push(
                        self.frames.deep_view().last(),
                    ));
                }
                match self.parser.parse_line(line.as_str()) {
                    Err(e) => Err(e),
                    Ok(None) => Ok(StepRes::Progress),
                    Ok(Some(c)) => self.exec_guarded(c),
                }
            },
        }
    }

    /// Executes one command under the skip guard: a covered, non-control
    /// command does nothing.
    fn exec_guarded(&mut self, c: Command) -> (r: Result<StepRes, String>)
        requires
            old(self)@.pending is None,
        ensures
            final(self)@ == spec_exec_guarded(old(self)@, c@).0,
            step_res_view(r) == spec_exec_guarded(old(self)@, c@).1,
    {
        let name = c.name();
        if self.context.should_skip(name) && !c.is_control_flow() {
            return Ok(StepRes::Progress);
        }
        self.dispatch(c)
    }

    /// Executes one command, exactly as `spec_exec_cmd` says.
    fn dispatch(&mut self, c: Command) -> (r: Result<StepRes, String>)
        requires
            old(self)@.pending is None,
        ensures
            final(self)@ == spec_exec_cmd(old(self)@, c@).0,
            step_res_view(r) == spec_exec_cmd(old(self)@, c@).1,
    {
        match c {
            Command::Def(d) => {
                match d.execute(&mut self.context) {
                    Ok(_) => Ok(StepRes::Progress),
                    Err(e) => Err(e),
                }
            },
            Command::Mov(d) => {
                match d.execute(&mut self.context) {
                    Ok(_) => Ok(StepRes::Progress),
                    Err(e) => Err(e),
                }
            },
            Command::Eq(d) => {
                match d.execute(&mut self.context) {
                    Ok(_) => Ok(StepRes::Progress),
                    Err(e) => Err(e),
                }
            },
            Command::Neq(d) => {
                match d.execute(&mut self.context) {
                    Ok(_) => Ok(StepRes::Progress),
                    Err(e) => Err(e),
                }
            },
            Command::If(d) => {
                match d.execute(&mut self.context) {
                    Ok(_) => Ok(StepRes::Progress),
                    Err(e) => Err(e),
                }
            },
            Command::EndIf(d) => {
                match d.execute(&mut self.context) {
                    Ok(_) => Ok(StepRes::Progress),
                    Err(e) => Err(e),
                }
            },
            Command::Print(d) => {
                match d.execute(&mut self.context) {
                    Ok(_) => Ok(StepRes::Progress),
                    Err(e) => Err(e),
                }
            },
            Command::Abort(a) => Ok(StepRes::Stopped(a.error)),
            Command::EndFn(d) => {
                match d.execute(&mut self.context) {
                    Ok(_) => Ok(StepRes::Progress),
                    Err(e) => Err(e),
                }
            },
            Command::FnDef(d) => {
                let body = clone_strings(&d.body);
                match self.define_function(d.name.as_str(), body) {
                    Ok(_) => Ok(StepRes::Progress),
                    Err(e) => Err(e),
                }
            },
            Command::FnCall(d) => {
                match self.call_function(d.name.as_str()) {
                    Ok(_) => Ok(StepRes::Progress),
                    Err(e) => Err(e),
                }
            },
            Command::Input(d) => {
                self.pending = Some(d.request());
                Ok(StepRes::Paused(d.request()))
            },
            Command::Exec(d) => {
                let e = d.request(&self.context);
                self.pending = Some(e);
                Ok(StepRes::Paused(d.request(&self.context)))
            },
            Command::Npm(d) => {
                let e = d.request(&self.context);
                self.pending = Some(e);
                Ok(StepRes::Paused(d.request(&self.context)))
            },
            Command::LibCall(d) => {
                let dispatcher = LibraryExecutor::new();
                match dispatcher.execute(d.name.as_str(), &self.context) {
                    Err(e) => Err(e),
                    Ok(eff) => {
                        self.pending = Some(eff);
                        match dispatcher.execute(d.name.as_str(), &self.context) {
                            Ok(eff2) => Ok(StepRes::Paused(eff2)),
                            Err(e) => {
                                proof {
                                    assert(false);
                                }
                                Err(e)
                            },
                        }
                    },
                }
            },
            Command::Multi(m) => {
                proof {
                    crate::command::lemma_cmds_view_is_deep(m.commands);
                }
                self.frames.push(Frame::Cmds { cmds: m.commands, idx: 0 });
                proof {
                    assert(self.frames.deep_view() =~= old(self).frames.deep_view().push(
                        self.frames.deep_view().last(),
                    ));
                }
                Ok(StepRes::Progress)
            },
        }
    }

    /// Clears any paused work and schedules the whole program, from the
    /// top, as the frame the run loop will consume.
    pub fn reset_run(&mut self)
        ensures
            final(self)@ == (VmV {
                frames: seq![FrameV::Cmds { cmds: old(self)@.commands, idx: 0 }],
                pending: None,
                ..old(self)@
            }),
    {
        let cmds = clone_commands(&self.commands);
        let mut fs: Vec<Frame> = Vec::new();
        fs.push(Frame::Cmds { cmds, idx: 0 });
        self.frames = fs;
        self.pending = None;
        proof {
            assert(self.frames.deep_view() =~= seq![
                FrameV::Cmds { cmds: old(self)@.commands, idx: 0 },
            ]);
        }
    }

    /// Applies the result of a performed effect: the effect's conventional
    /// variables are written back and the pause is cleared, so the caller
    /// can step on.  A failed effect ends the run with its error.
    pub fn resume(&mut self, result: EffectResult) -> (r: Result<(), String>)
        requires
            spec_pending_matches(old(self)@.pending, result@),
        ensures
            final(self)@ == spec_apply(old(self)@, result@).0,
            (match r {
                Ok(_) => spec_apply(old(self)@, result@).1 is None,
                Err(e) => spec_apply(old(self)@, result@).1 matches Some(ee) && e@ == ee,
            }),
    {
        let pend = self.pending.take();
        match (pend, result) {
            (Some(Effect::ReadLine { var }), EffectResult::ReadLine { line }) => {
                let trimmed = string_of(&trim_chars(&chars_of(line.as_str())));
                self.context.set_variable(var, trimmed);
                Ok(())
            },
            (
                Some(Effect::Shell { .. }),
                EffectResult::Shell { spawn_error, stdout, success, status },
            ) => {
                match spawn_error {
                    Some(e) => {
                        let mut msg = String::from_str("Failed to execute command: ");
                        msg.append(e.as_str());
                        Err(msg)
                    },
                    None => {
                        self.context.set_variable(String::from_str("exec_stdout"), stdout);
                        self.context.set_variable(
                            String::from_str("exec_status"),
                            status.clone(),
                        );
                        if !success {
                            let mut msg = String::from_str("Command failed with exit code: ");
                            msg.append(status.as_str());
                            Err(msg)
                        } else {
                            Ok(())
                        }
                    },
                }
            },
            (Some(Effect::Npm { .. }), EffectResult::Npm { spawn_error }) => {
                match spawn_error {
                    Some(e) => {
                        let mut msg = String::from_str("Failed to execute NPM command: ");
                        msg.append(e.as_str());
                        Err(msg)
                    },
                    None => Ok(()),
                }
            },
            (
                Some(Effect::Git { .. }),
                EffectResult::Git { spawn_error, stdout, success, status },
            ) => {
                match spawn_error {
                    Some(e) => {
                        let mut msg = String::from_str("Failed to execute git command: ");
                        msg.append(e.as_str());
                        Err(msg)
                    },
                    None => {
                        self.context.set_variable(String::from_str("exec_stdout"), stdout);
                        if !success {
                            let mut msg = String::from_str("Git command failed with exit code: ");
                            msg.append(status.as_str());
                            Err(msg)
                        } else {
                            Ok(())
                        }
                    },
                }
            },
            (Some(Effect::HttpGet { .. }), EffectResult::HttpGet { body }) => {
                self.context.set_variable(String::from_str("http_get_body"), body);
                Ok(())
            },
            (Some(Effect::WriteFile { .. }), EffectResult::WriteFile) => Ok(()),
            _ => {
                proof {
                    assert(false);
                }
                Err(String::new())
            },
        }
    }

    /// Loads and parses a script: every non-blank line is parsed for
    /// validation, function bodies are collected as raw lines, and the rest
    /// of the commands are appended to the program.
    #[verifier::loop_isolation(false)]
    pub fn load_string(&mut self, script: &str) -> (r: Result<(), String>)
        ensures
            (match r {
                Ok(_) => spec_load(old(self)@, script@) matches Ok(s) && final(self)@ == s,
                Err(e) => spec_load(old(self)@, script@) matches Err(ee) && e@ == ee,
            }),
    {
        self.parser = Parser::new();
        let ghost s_start = self@;
        let sc = chars_of(script);
        let lines = split_lines(&sc);
        let ghost linesv = spec_lines(script@);
        let n: usize = lines.len();
        let mut i: usize = 0;
        while i < n
            invariant
                i <= n,
                n == lines@.len(),
                lines.deep_view() == linesv,
                spec_load_lines(s_start, linesv, 0) == spec_load_lines(self@, linesv, i as nat),
            decreases n - i,
        {
            let lc = chars_of(lines[i].as_str());
            let t = trim_chars(&lc);
            if t.len() > 0 {
                let ts = string_of(&t);
                match self.process_line(ts.as_str()) {
                    Err(e) => {
                        return Err(e);
                    },
                    Ok(_) => {
                    },
                }
            }
            i = i + 1;
        }
        if self.current_fn.is_some() {
            return Err(String::from_str("Unclosed function definition"));
        }
        Ok(())
    }

    /// Parses one loaded line and routes the command it yields.
    fn process_line(&mut self, line: &str) -> (r: Result<(), String>)
        ensures
            (match r {
                Ok(_) => spec_process_line(old(self)@, line@) matches Ok(s) && final(self)@ == s,
                Err(e) => spec_process_line(old(self)@, line@) matches Err(ee) && e@ == ee,
            }),
    {
        proof {
            lemma_parse_fndef(self@.parser, line@);
        }
        match self.parser.parse_line(line) {
            Err(e) => Err(e),
            Ok(None) => Ok(()),
            Ok(Some(command)) => self.handle_command(command, line),
        }
    }

    /// Routes a freshly parsed command: FN opens body collection, ENDFN
    /// closes it, anything else is collected or appended.
    fn handle_command(&mut self, command: Command, line: &str) -> (r: Result<(), String>)
        requires
            command@ matches CmdV::FnDef { .. } ==> old(self)@.parser.last_args.len() >= 2,
        ensures
            (match r {
                Ok(_) => spec_handle_command(old(self)@, command@, line@) matches Ok(s)
                    && final(self)@ == s,
                Err(e) => spec_handle_command(old(self)@, command@, line@) matches Err(ee) && e@
                    == ee,
            }),
    {
        match &command {
            Command::FnDef(_) => self.handle_fn_start(),
            Command::EndFn(_) => self.handle_fn_end(),
            _ => self.handle_regular_command(command, line),
        }
    }

    /// Opens collection of a function body, named after the second token of
    /// the line just parsed.  A function already open is a load error.
    fn handle_fn_start(&mut self) -> (r: Result<(), String>)
        requires
            old(self)@.parser.last_args.len() >= 2,
        ensures
            (match r {
                Ok(_) => old(self)@.current_fn is None && final(self)@ == (VmV {
                    current_fn: Some((old(self)@.parser.last_args[1], Seq::empty())),
                    ..old(self)@
                }),
                Err(e) => old(self)@.current_fn is Some && e@ == "Nested function definition"@
                    && *final(self) == *old(self),
            }),
    {
        if self.current_fn.is_some() {
            return Err(String::from_str("Nested function definition"));
        }
        let args = match self.parser.get_last_args() {
            Some(a) => a,
            None => {
                proof {
                    assert(false);
                }
                return Err(String::new());
            },
        };
        let name = args[1].clone();
        let body: Vec<String> = Vec::new();
        self.current_fn = Some((name, body));
        proof {
            let pre = *old(self);
            assert(self@.current_fn matches Some((nm, bd)) && nm == pre@.parser.last_args[1]
                && bd =~= Seq::<Seq<char>>::empty());
        }
        Ok(())
    }

    /// Closes the open function body and stores it, or reports a stray
    /// ENDFN.
    fn handle_fn_end(&mut self) -> (r: Result<(), String>)
        ensures
            (match r {
                Ok(_) => old(self)@.current_fn matches Some((name, body)) && final(self)@ == (VmV {
                    current_fn: None,
                    functions: spec_fns_insert(old(self)@.functions, name, body),
                    ..old(self)@
                }),
                Err(e) => old(self)@.current_fn is None && e@ == "ENDFN without matching FN"@
                    && *final(self) == *old(self),
            }),
    {
        match self.current_fn.take() {
            Some((name, body)) => self.define_function(name.as_str(), body),
            None => Err(String::from_str("ENDFN without matching FN")),
        }
    }

    /// Collects a line into the open function body, or appends the command
    /// to the program.
    fn handle_regular_command(&mut self, command: Command, line: &str) -> (r: Result<(), String>)
        ensures
            r is Ok,
            final(self)@ == (match old(self)@.current_fn {
                Some((name, body)) => (VmV {
                    current_fn: Some((name, body.push(line@))),
                    ..old(self)@
                }),
                None => (VmV { commands: old(self)@.commands.push(command@), ..old(self)@ }),
            }),
    {
        match self.current_fn.take() {
            Some((name, mut body)) => {
                let mut s = String::new();
                s.append(line);
                body.push(s);
                self.current_fn = Some((name, body));
                proof {
                    let pre = *old(self);
                    assert(self@.current_fn matches Some((nm, bd)) && bd =~= (match pre@.current_fn {
                        Some((_, b0)) => b0.push(line@),
                        None => bd,
                    }));
                }
                Ok(())
            },
            None => {
                self.add_command(command);
                Ok(())
            },
        }
    }

    /// Parses one line with the machine's own parser and schedules the
    /// command it yields as a frame for the step loop; a blank or comment
    /// line schedules nothing.
    pub fn execute_line(&mut self, line: &str) -> (r: Result<(), String>)
        ensures
            ({
                let (p2, pr) = spec_parse_line(old(self)@.parser, line@);
                match pr {
                    Err(e) => r matches Err(ee) && ee@ == e && final(self)@ == (VmV {
                        parser: p2,
                        ..old(self)@
                    }),
                    Ok(None) => r is Ok && final(self)@ == (VmV { parser: p2, ..old(self)@ }),
                    Ok(Some(c)) => r is Ok && final(self)@ == (VmV {
                        parser: p2,
                        frames: old(self)@.frames.push(FrameV::Cmds { cmds: seq![c], idx: 0 }),
                        ..old(self)@
                    }),
                }
            }),
    {
        match self.parser.parse_line(line) {
            Err(e) => Err(e),
            Ok(None) => Ok(()),
            Ok(Some(command)) => {
                let ghost cv = command@;
                let mut v: Vec<Command> = Vec::new();
                v.push(command);
                proof {
                    assert(v.deep_view() =~= seq![cv]);
                }
                self.frames.push(Frame::Cmds { cmds: v, idx: 0 });
                proof {
                    assert(self.frames.deep_view() =~= old(self).frames.deep_view().push(
                        FrameV::Cmds { cmds: seq![cv], idx: 0 },
                    ));
                }
                Ok(())
            },
        }
    }

    /// Parses one line with a fresh parser and schedules the command it
    /// yields; the machine's own parser state is untouched.
    pub fn execute_instruction(&mut self, instruction: &str) -> (r: Result<(), String>)
        ensures
            ({
                let (p2, pr) = spec_parse_line(spec_parser_init(), instruction@);
                match pr {
                    Err(e) => r matches Err(ee) && ee@ == e && *final(self) == *old(self),
                    Ok(None) => r is Ok && *final(self) == *old(self),
                    Ok(Some(c)) => r is Ok && final(self)@ == (VmV {
                        frames: old(self)@.frames.push(FrameV::Cmds { cmds: seq![c], idx: 0 }),
                        ..old(self)@
                    }),
                }
            }),
    {
        let mut parser = Parser::new();
        match parser.parse_line(instruction) {
            Err(e) => Err(e),
            Ok(None) => Ok(()),
            Ok(Some(command)) => {
                let ghost cv = command@;
                let mut v: Vec<Command> = Vec::new();
                v.push(command);
                proof {
                    assert(v.deep_view() =~= seq![cv]);
                }
                self.frames.push(Frame::Cmds { cmds: v, idx: 0 });
                proof {
                    assert(self.frames.deep_view() =~= old(self).frames.deep_view().push(
                        FrameV::Cmds { cmds: seq![cv], idx: 0 },
                    ));
                }
                Ok(())
            },
        }
    }
}

/// A parse that yields a function definition leaves at least two tokens in
/// the parser's argument list (the keyword and the name).
pub proof fn lemma_parse_fndef(p: ParserV, line: Seq<char>)
    ensures
        (spec_parse_line(p, line).1 matches Ok(Some(c)) && c matches CmdV::FnDef { .. })
            ==> spec_parse_line(p, line).0.last_args.len() >= 2,
{
    let t = spec_trim(line);
    if crate::parser::spec_blank_or_comment(t) {
    } else if t[0] == '!' || t[0] == '$' {
        // A macro line yields a composite command, never a function
        // definition.
    } else {
        let tokens = crate::text::spec_split_ws(t);
        if tokens.len() > 0 {
            match crate::commands::registry::spec_reg_lookup(
                p.registry,
                crate::text::spec_upper(tokens[0]),
            ) {
                None => {
                },
                Some(kind) => {
                    match kind {
                        crate::commands::registry::CommandKind::FnDef => {
                            if tokens.drop_first().len() >= 2 {
                                assert(tokens.len() >= 3);
                            }
                        },
                        _ => {
                        },
                    }
                },
            }
        }
    }
}

} // verus!
