//! The execution context shared by all commands, and the closed set of
//! command variants.
//!
//! The context holds the variable store, the current positional arguments,
//! the single conditional-skip marker and the lines produced by `PRINT`.
//! Its behaviour is specified over a ghost model (`CtxV`) built from
//! sequences, so every command can state its exact state transition.

use vstd::pervasive::VecAdditionalExecFns;
use vstd::prelude::*;
use vstd::string::*;

use crate::commands::AbortCommand;
use crate::commands::DefCommand;
use crate::commands::EndFnCommand;
use crate::commands::EndIfCommand;
use crate::commands::EqCommand;
use crate::commands::ExecCommand;
use crate::commands::FnCallCommand;
use crate::commands::FnDefCommand;
use crate::commands::IfCommand;
use crate::commands::InputCommand;
use crate::commands::LibCallCommand;
use crate::commands::MovCommand;
use crate::commands::NeqCommand;
use crate::commands::NpmCommand;
use crate::commands::PrintCommand;
use crate::text::chars_of;
use crate::text::replace_chars;
use crate::text::spec_contains;
use crate::text::spec_contains_char;
use crate::text::spec_first_idx;
use crate::text::spec_replace;
use crate::text::str_eq;
use crate::text::string_of;

verus! {

broadcast use {
    vstd::std_specs::vec::axiom_vec_decreases_to_view,
    vstd::std_specs::vec::axiom_vec_index_decreases,
    vstd::seq::group_seq_axioms,
    crate::text::lemma_vec_deep_view,
};

// ---------------------------------------------------------------------------
// The variable store, modelled as an ordered sequence of (name, value) pairs.
// Lookup returns the first pair with the given name; insertion replaces the
// first matching pair or appends a new one, so the store behaves as a map
// with last-write-wins values.
// ---------------------------------------------------------------------------

/// The value bound to `k`, if any.
pub open spec fn spec_lookup(ps: Seq<(Seq<char>, Seq<char>)>, k: Seq<char>) -> Option<Seq<char>>
    decreases ps.len(),
{
    if ps.len() == 0 {
        None
    } else if ps[0].0 == k {
        Some(ps[0].1)
    } else {
        spec_lookup(ps.drop_first(), k)
    }
}

/// The store with `k` bound to `v`.
pub open spec fn spec_insert(ps: Seq<(Seq<char>, Seq<char>)>, k: Seq<char>, v: Seq<char>) -> Seq<
    (Seq<char>, Seq<char>),
>
    decreases ps.len(),
{
    if ps.len() == 0 {
        seq![(k, v)]
    } else if ps[0].0 == k {
        seq![(k, v)] + ps.drop_first()
    } else {
        seq![ps[0]] + spec_insert(ps.drop_first(), k, v)
    }
}

/// What expanding variables in `s` yields: for each stored pair in order,
/// every occurrence of `$name` is replaced by the value, with no regard to
/// token boundaries.
pub open spec fn spec_expand(ps: Seq<(Seq<char>, Seq<char>)>, s: Seq<char>) -> Seq<char>
    decreases ps.len(),
{
    if ps.len() == 0 {
        s
    } else {
        spec_expand(ps.drop_first(), spec_replace(s, seq!['$'] + ps[0].0, ps[0].1))
    }
}

/// Whether a command named `name` is skipped under skip marker `skip`: while
/// a marker is set, everything but the marker's own keyword is skipped.
pub open spec fn spec_should_skip(skip: Option<Seq<char>>, name: Seq<char>) -> bool {
    match skip {
        Some(target) => name != target,
        None => false,
    }
}

/// The ghost model of an execution context.
pub ghost struct CtxV {
    pub vars: Seq<(Seq<char>, Seq<char>)>,
    pub args: Seq<Seq<char>>,
    pub skip: Option<Seq<char>>,
    pub ret: Option<Seq<char>>,
    pub output: Seq<Seq<char>>,
}

/// The empty context.
pub open spec fn spec_ctx_init() -> CtxV {
    CtxV {
        vars: Seq::empty(),
        args: Seq::empty(),
        skip: None,
        ret: None,
        output: Seq::empty(),
    }
}

/// The state passed to every command at run time: variable store, current
/// positional arguments, the conditional-skip marker, an optional return
/// value, and the output lines produced so far.
pub struct ExecutionContext {
    pub variables: Vec<(String, String)>,
    pub args: Vec<String>,
    pub skip_until: Option<String>,
    pub return_value: Option<String>,
    pub output: Vec<String>,
}

impl View for ExecutionContext {
    type V = CtxV;

    open spec fn view(&self) -> CtxV {
        CtxV {
            vars: self.variables.deep_view(),
            args: self.args.deep_view(),
            skip: match self.skip_until {
                Some(ref s) => Some(s@),
                None => None,
            },
            ret: match self.return_value {
                Some(ref s) => Some(s@),
                None => None,
            },
            output: self.output.deep_view(),
        }
    }
}

impl ExecutionContext {
    /// Creates a new, empty context.
    pub fn new() -> (r: ExecutionContext)
        ensures
            r@ == spec_ctx_init(),
    {
        let r = ExecutionContext {
            variables: Vec::new(),
            args: Vec::new(),
            skip_until: None,
            return_value: None,
            output: Vec::new(),
        };
        proof {
            assert(r@.vars =~= spec_ctx_init().vars);
            assert(r@.args =~= spec_ctx_init().args);
            assert(r@.output =~= spec_ctx_init().output);
        }
        r
    }

    /// Binds `name` to `value` in the variable store.
    #[verifier::loop_isolation(false)]
    pub fn set_variable(&mut self, name: String, value: String)
        ensures
            final(self)@ == (CtxV {
                vars: spec_insert(old(self)@.vars, name@, value@),
                ..old(self)@
            }),
    {
        let ghost dv = self.variables.deep_view();
        let n: usize = self.variables.len();
        let mut i: usize = 0;
        proof {
            assert(dv.skip(0) =~= dv);
            assert(dv.take(0) =~= Seq::<(Seq<char>, Seq<char>)>::empty());
        }
        while i < n
            invariant
                i <= n,
                n == self.variables.len(),
                dv == self.variables.deep_view(),
                *self == *old(self),
                spec_insert(dv, name@, value@) == dv.take(i as int) + spec_insert(
                    dv.skip(i as int),
                    name@,
                    value@,
                ),
            decreases n - i,
        {
            let hit = str_eq(self.variables[i].0.as_str(), name.as_str());
            proof {
                assert(dv.skip(i as int)[0] == dv[i as int]);
                assert(dv[i as int].0 == self.variables@[i as int].0@);
            }
            if hit {
                self.variables.set(i, (name, value));
                proof {
                    assert(dv.skip(i as int).drop_first() =~= dv.skip(i as int + 1));
                    assert(self.variables.deep_view() =~= dv.take(i as int) + (seq![
                        (name@, value@),
                    ] + dv.skip(i as int + 1)));
                }
                return ;
            }
            proof {
                assert(dv.skip(i as int).drop_first() =~= dv.skip(i as int + 1));
                assert(dv.take(i as int) + seq![dv[i as int]] =~= dv.take(i as int + 1));
                assert(dv.take(i as int) + (seq![dv[i as int]] + spec_insert(
                    dv.skip(i as int + 1),
                    name@,
                    value@,
                )) =~= dv.take(i as int + 1) + spec_insert(dv.skip(i as int + 1), name@, value@));
            }
            i = i + 1;
        }
        self.variables.push((name, value));
        proof {
            assert(dv.skip(n as int) =~= Seq::<(Seq<char>, Seq<char>)>::empty());
            assert(dv.take(n as int) =~= dv);
            assert(self.variables.deep_view() =~= dv + seq![(name@, value@)]);
            assert(dv + seq![(name@, value@)] =~= dv.take(n as int) + spec_insert(
                dv.skip(n as int),
                name@,
                value@,
            ));
        }
    }

    /// The value bound to `name`, cloned out of the store.
    #[verifier::loop_isolation(false)]
    pub fn get_variable(&self, name: &str) -> (r: Option<String>)
        ensures
            (match r {
                Some(v) => spec_lookup(self@.vars, name@) == Some(v@),
                None => spec_lookup(self@.vars, name@) is None,
            }),
    {
        let ghost dv = self.variables.deep_view();
        let n: usize = self.variables.len();
        let mut i: usize = 0;
        proof {
            assert(dv.skip(0) =~= dv);
        }
        while i < n
            invariant
                i <= n,
                spec_lookup(dv, name@) == spec_lookup(dv.skip(i as int), name@),
            decreases n - i,
        {
            proof {
                assert(dv.skip(i as int)[0] == dv[i as int]);
                assert(dv.skip(i as int).drop_first() =~= dv.skip(i as int + 1));
            }
            let hit = str_eq(self.variables[i].0.as_str(), name);
            if hit {
                return Some(self.variables[i].1.clone());
            }
            i = i + 1;
        }
        proof {
            assert(dv.skip(n as int) =~= Seq::<(Seq<char>, Seq<char>)>::empty());
        }
        None
    }

    /// The current command arguments, cloned.
    pub fn get_args(&self) -> (r: Result<Vec<String>, String>)
        ensures
            (r matches Ok(a) && a.deep_view() == self@.args),
    {
        Ok(clone_strings(&self.args))
    }

    /// Replaces the current command arguments.
    pub fn set_args(&mut self, args: Vec<String>)
        ensures
            final(self)@ == (CtxV { args: args.deep_view(), ..old(self)@ }),
    {
        self.args = args;
    }

    /// Sets the value to be returned from the current execution.
    pub fn set_return_value(&mut self, value: String)
        ensures
            final(self)@ == (CtxV { ret: Some(value@), ..old(self)@ }),
    {
        self.return_value = Some(value);
    }

    /// Takes and clears the return value.
    pub fn take_return_value(&mut self) -> (r: Option<String>)
        ensures
            final(self)@ == (CtxV { ret: None, ..old(self)@ }),
            (match r {
                Some(v) => old(self)@.ret == Some(v@),
                None => old(self)@.ret is None,
            }),
    {
        let r = self.return_value.take();
        r
    }

    /// Expands every `$name` of the store in `input`, pair by pair.
    #[verifier::loop_isolation(false)]
    pub fn expand_variables(&self, input: &str) -> (r: String)
        ensures
            r@ == spec_expand(self@.vars, input@),
    {
        let ghost dv = self.variables.deep_view();
        let mut cur: Vec<char> = chars_of(input);
        let n: usize = self.variables.len();
        let mut i: usize = 0;
        proof {
            assert(dv.skip(0) =~= dv);
        }
        while i < n
            invariant
                i <= n,
                spec_expand(dv, input@) == spec_expand(dv.skip(i as int), cur@),
            decreases n - i,
        {
            proof {
                assert(dv.skip(i as int)[0] == dv[i as int]);
                assert(dv.skip(i as int).drop_first() =~= dv.skip(i as int + 1));
            }
            let mut pat: Vec<char> = Vec::new();
            pat.push('$');
            let key = chars_of(self.variables[i].0.as_str());
            let mut k: usize = 0;
            while k < key.len()
                invariant
                    k <= key@.len(),
                    key@ == dv[i as int].0,
                    pat@ == seq!['$'] + key@.take(k as int),
                decreases key.len() - k,
            {
                pat.push(key[k]);
                k = k + 1;
                proof {
                    assert(pat@ =~= seq!['$'] + key@.take(k as int));
                }
            }
            proof {
                assert(pat@ =~= seq!['$'] + dv[i as int].0);
            }
            let rep = chars_of(self.variables[i].1.as_str());
            cur = replace_chars(&cur, &pat, &rep);
            i = i + 1;
        }
        proof {
            assert(dv.skip(n as int) =~= Seq::<(Seq<char>, Seq<char>)>::empty());
        }
        string_of(&cur)
    }

    /// The current arguments, cloned.
    pub fn get_current_args(&self) -> (r: Vec<String>)
        ensures
            r.deep_view() == self@.args,
    {
        clone_strings(&self.args)
    }

    /// Sets the keyword that ends the current skip.
    pub fn set_skip_until(&mut self, command: &str)
        ensures
            final(self)@ == (CtxV { skip: Some(command@), ..old(self)@ }),
    {
        let mut s = String::new();
        s.append(command);
        self.skip_until = Some(s);
    }

    /// Clears the skip marker.
    pub fn clear_skip(&mut self)
        ensures
            final(self)@ == (CtxV { skip: None, ..old(self)@ }),
    {
        self.skip_until = None;
    }

    /// Whether a command named `command_name` is skipped in the current
    /// state.
    pub fn should_skip(&self, command_name: &str) -> (r: bool)
        ensures
            r == spec_should_skip(self@.skip, command_name@),
    {
        match &self.skip_until {
            Some(target) => !str_eq(command_name, target.as_str()),
            None => false,
        }
    }
}

/// An element-wise clone of a vector of strings.
pub fn clone_strings(v: &Vec<String>) -> (r: Vec<String>)
    ensures
        r.deep_view() == v.deep_view(),
{
    let mut r: Vec<String> = Vec::new();
    let mut i: usize = 0;
    while i < v.len()
        invariant
            i <= v@.len(),
            r.deep_view() == v.deep_view().take(i as int),
        decreases v.len() - i,
    {
        r.push(v[i].clone());
        i = i + 1;
        proof {
            assert(r.deep_view() =~= v.deep_view().take(i as int));
        }
    }
    proof {
        assert(r.deep_view() =~= v.deep_view());
    }
    r
}

// ---------------------------------------------------------------------------
// The closed set of commands.
// ---------------------------------------------------------------------------

/// A command bound to its operands at construction time.  The set of
/// variants is closed; a `Multi` wraps the ordered expansion of a macro
/// line.
pub enum Command {
    Def(DefCommand),
    Mov(MovCommand),
    Exec(ExecCommand),
    Npm(NpmCommand),
    If(IfCommand),
    EndIf(EndIfCommand),
    Eq(EqCommand),
    Neq(NeqCommand),
    Print(PrintCommand),
    Abort(AbortCommand),
    FnDef(FnDefCommand),
    FnCall(FnCallCommand),
    EndFn(EndFnCommand),
    Input(InputCommand),
    LibCall(LibCallCommand),
    Multi(MultiCommand),
}

/// A composite command wrapping an ordered sequence of other commands.
pub struct MultiCommand {
    pub commands: Vec<Command>,
}

impl MultiCommand {
    /// Creates a composite from the given commands.
    pub fn new(commands: Vec<Command>) -> (r: MultiCommand)
        ensures
            r.commands == commands,
    {
        MultiCommand { commands }
    }
}

/// The ghost model of a command: each variant carries the views of its
/// operands.
pub ghost enum CmdV {
    Def { name: Seq<char>, value: Seq<char> },
    Mov { name: Seq<char>, value: Seq<char> },
    Exec { cmd: Seq<char> },
    Npm { cmd: Seq<char> },
    If { expected: Seq<char>, var: Seq<char>, op: Seq<char> },
    EndIf,
    Eq { left: Seq<char>, right: Seq<char> },
    Neq { left: Seq<char>, right: Seq<char> },
    Print { text: Seq<char> },
    Abort { message: Seq<char> },
    FnDef { name: Seq<char>, body: Seq<Seq<char>> },
    FnCall { name: Seq<char> },
    EndFn,
    Input { var: Seq<char> },
    LibCall { name: Seq<char> },
    Multi { cmds: Seq<CmdV> },
}

#[via_fn]
proof fn cmd_view_dec(c: Command) {
    match c {
        Command::Multi(m) => {
            assert(decreases_to!(c => c->Multi_0));
            assert(decreases_to!(c->Multi_0 => c->Multi_0.commands));
            assert(decreases_to!(c->Multi_0.commands => c->Multi_0.commands@));
            assert(decreases_to!(c => m.commands@));
        },
        _ => {
        },
    }
}

#[via_fn]
proof fn cmds_view_dec(v: Seq<Command>) {
    if v.len() > 0 {
        assert(decreases_to!(v => v[0]));
        assert(v.drop_first() == v.subrange(1, v.len() as int));
        assert(decreases_to!(v => v.drop_first()));
    }
}

/// The views of a command sequence, in order.
pub open spec fn cmds_view(v: Seq<Command>) -> Seq<CmdV>
    decreases v,
        via cmds_view_dec
{
    if v.len() == 0 {
        Seq::empty()
    } else {
        seq![cmd_view(v[0])] + cmds_view(v.drop_first())
    }
}

/// `cmds_view` is the element-wise view.
pub proof fn lemma_cmds_view(v: Seq<Command>)
    ensures
        cmds_view(v).len() == v.len(),
        forall|i: int| 0 <= i < v.len() ==> cmds_view(v)[i] == cmd_view(v[i]),
    decreases v.len(),
{
    if v.len() > 0 {
        lemma_cmds_view(v.drop_first());
    }
}

/// The views of a vector of commands are its deep view.
pub proof fn lemma_cmds_view_is_deep(v: Vec<Command>)
    ensures
        cmds_view(v@) == v.deep_view(),
{
    lemma_cmds_view(v@);
    assert forall|i: int| 0 <= i < v@.len() implies v.deep_view()[i] == cmds_view(v@)[i] by {
        assert(v.deep_view()[i] == v@[i].deep_view());
        assert(v@[i].deep_view() == cmd_view(v@[i]));
    }
    assert(cmds_view(v@) =~= v.deep_view());
}

/// The view of a command.
pub open spec fn cmd_view(c: Command) -> CmdV
    decreases c,
        via cmd_view_dec
{
    match c {
        Command::Def(d) => CmdV::Def { name: d.name@, value: d.value@ },
        Command::Mov(d) => CmdV::Mov { name: d.name@, value: d.value@ },
        Command::Exec(d) => CmdV::Exec { cmd: d.cmd@ },
        Command::Npm(d) => CmdV::Npm { cmd: d.cmd@ },
        Command::If(d) => CmdV::If {
            expected: d.expected_value@,
            var: d.condition_var@,
            op: d.operator@,
        },
        Command::EndIf(_) => CmdV::EndIf,
        Command::Eq(d) => CmdV::Eq { left: d.left@, right: d.right@ },
        Command::Neq(d) => CmdV::Neq { left: d.left@, right: d.right@ },
        Command::Print(d) => CmdV::Print { text: d.cmd@ },
        Command::Abort(d) => CmdV::Abort { message: d.error@ },
        Command::FnDef(d) => CmdV::FnDef { name: d.name@, body: d.body.deep_view() },
        Command::FnCall(d) => CmdV::FnCall { name: d.name@ },
        Command::EndFn(_) => CmdV::EndFn,
        Command::Input(d) => CmdV::Input { var: d.var@ },
        Command::LibCall(d) => CmdV::LibCall { name: d.name@ },
        Command::Multi(m) => CmdV::Multi { cmds: cmds_view(m.commands@) },
    }
}

impl View for Command {
    type V = CmdV;

    open spec fn view(&self) -> CmdV {
        cmd_view(*self)
    }
}

impl DeepView for Command {
    type V = CmdV;

    open spec fn deep_view(&self) -> CmdV {
        cmd_view(*self)
    }
}

/// The keyword naming each command variant.
pub open spec fn spec_cmd_name(c: CmdV) -> Seq<char> {
    match c {
        CmdV::Def { .. } => "DEF"@,
        CmdV::Mov { .. } => "MOV"@,
        CmdV::Exec { .. } => "EXEC"@,
        CmdV::Npm { .. } => "NPM"@,
        CmdV::If { .. } => "IF"@,
        CmdV::EndIf => "ENDIF"@,
        CmdV::Eq { .. } => "EQ"@,
        CmdV::Neq { .. } => "NEQ"@,
        CmdV::Print { .. } => "PRINT"@,
        CmdV::Abort { .. } => "ABORT"@,
        CmdV::FnDef { .. } => "FN"@,
        CmdV::FnCall { .. } => "CALL"@,
        CmdV::EndFn => "ENDFN"@,
        CmdV::Input { .. } => "INPUT"@,
        CmdV::LibCall { .. } => "LIBCALL"@,
        CmdV::Multi { .. } => "MULTI"@,
    }
}

/// Whether a command variant affects control flow.
pub open spec fn spec_is_control_flow(c: CmdV) -> bool {
    match c {
        CmdV::If { .. } => true,
        CmdV::EndIf => true,
        _ => false,
    }
}

/// An independent copy of a command, with the same operands.
pub fn clone_command(c: &Command) -> (r: Command)
    ensures
        r@ == c@,
    decreases *c,
{
    match c {
        Command::Def(d) => Command::Def(DefCommand { name: d.name.clone(), value: d.value.clone() }),
        Command::Mov(d) => Command::Mov(MovCommand { name: d.name.clone(), value: d.value.clone() }),
        Command::Exec(d) => Command::Exec(ExecCommand { cmd: d.cmd.clone() }),
        Command::Npm(d) => Command::Npm(NpmCommand { cmd: d.cmd.clone() }),
        Command::If(d) => Command::If(
            IfCommand {
                expected_value: d.expected_value.clone(),
                condition_var: d.condition_var.clone(),
                operator: d.operator.clone(),
            },
        ),
        Command::EndIf(_) => Command::EndIf(EndIfCommand),
        Command::Eq(d) => Command::Eq(EqCommand { left: d.left.clone(), right: d.right.clone() }),
        Command::Neq(d) => Command::Neq(NeqCommand { left: d.left.clone(), right: d.right.clone() }),
        Command::Print(d) => Command::Print(PrintCommand { cmd: d.cmd.clone() }),
        Command::Abort(d) => Command::Abort(AbortCommand { error: d.error.clone() }),
        Command::FnDef(d) => Command::FnDef(
            FnDefCommand { name: d.name.clone(), body: clone_strings(&d.body) },
        ),
        Command::FnCall(d) => Command::FnCall(FnCallCommand { name: d.name.clone() }),
        Command::EndFn(_) => Command::EndFn(EndFnCommand),
        Command::Input(d) => Command::Input(InputCommand { var: d.var.clone() }),
        Command::LibCall(d) => Command::LibCall(LibCallCommand { name: d.name.clone() }),
        Command::Multi(m) => {
            let ghost target = m.commands.deep_view();
            let mut cmds: Vec<Command> = Vec::new();
            let n: usize = m.commands.len();
            let mut i: usize = 0;
            while i < n
                invariant
                    i <= n,
                    n == m.commands@.len(),
                    *c == Command::Multi(*m),
                    target == m.commands.deep_view(),
                    cmds.deep_view() == target.take(i as int),
                decreases n - i,
            {
                proof {
                    assert(decreases_to!(*c => c->Multi_0));
                    assert(decreases_to!(c->Multi_0 => c->Multi_0.commands));
                    assert(decreases_to!(c->Multi_0.commands => c->Multi_0.commands@));
                    assert(decreases_to!(c->Multi_0.commands@ => c->Multi_0.commands@[i as int]));
                    assert(decreases_to!(*c => m.commands@[i as int]));
                }
                let cc = clone_command(&m.commands[i]);
                cmds.push(cc);
                i = i + 1;
                proof {
                    assert(cmds.deep_view() =~= target.take(i as int));
                }
            }
            proof {
                assert(cmds.deep_view() =~= target);
                lemma_cmds_view(cmds@);
                lemma_cmds_view(m.commands@);
                assert forall|k: int|
                    0 <= k < cmds@.len() implies cmd_view(cmds@[k]) == cmd_view(
                    m.commands@[k],
                ) by {
                    assert(cmds.deep_view()[k] == cmds@[k].deep_view());
                    assert(cmds@[k].deep_view() == cmd_view(cmds@[k]));
                    assert(m.commands.deep_view()[k] == m.commands@[k].deep_view());
                    assert(m.commands@[k].deep_view() == cmd_view(m.commands@[k]));
                }
                assert(cmds_view(cmds@) =~= cmds_view(m.commands@));
            }
            Command::Multi(MultiCommand { commands: cmds })
        },
    }
}

/// An independent copy of a command list.
pub fn clone_commands(v: &Vec<Command>) -> (r: Vec<Command>)
    ensures
        r.deep_view() == v.deep_view(),
{
    let mut r: Vec<Command> = Vec::new();
    let mut i: usize = 0;
    while i < v.len()
        invariant
            i <= v@.len(),
            r.deep_view() == v.deep_view().take(i as int),
        decreases v.len() - i,
    {
        let c = clone_command(&v[i]);
        r.push(c);
        i = i + 1;
        proof {
            assert(r.deep_view() =~= v.deep_view().take(i as int));
        }
    }
    proof {
        assert(r.deep_view() =~= v.deep_view());
    }
    r
}

impl Command {
    /// The keyword naming this command.
    pub fn name(&self) -> (r: &'static str)
        ensures
            r@ == spec_cmd_name(self@),
    {
        match self {
            Command::Def(_) => "DEF",
            Command::Mov(_) => "MOV",
            Command::Exec(_) => "EXEC",
            Command::Npm(_) => "NPM",
            Command::If(_) => "IF",
            Command::EndIf(_) => "ENDIF",
            Command::Eq(_) => "EQ",
            Command::Neq(_) => "NEQ",
            Command::Print(_) => "PRINT",
            Command::Abort(_) => "ABORT",
            Command::FnDef(_) => "FN",
            Command::FnCall(_) => "CALL",
            Command::EndFn(_) => "ENDFN",
            Command::Input(_) => "INPUT",
            Command::LibCall(_) => "LIBCALL",
            Command::Multi(_) => "MULTI",
        }
    }

    /// Whether this command affects control flow.
    pub fn is_control_flow(&self) -> (r: bool)
        ensures
            r == spec_is_control_flow(self@),
    {
        match self {
            Command::If(_) => true,
            Command::EndIf(_) => true,
            _ => false,
        }
    }
}

// ---------------------------------------------------------------------------
// The exact state transitions of the pure commands.
// ---------------------------------------------------------------------------

/// What DEF and MOV do: bind `name` to `value` with variables expanded.
pub open spec fn spec_assign_ctx(c: CtxV, name: Seq<char>, value: Seq<char>) -> CtxV {
    CtxV { vars: spec_insert(c.vars, name, spec_expand(c.vars, value)), ..c }
}

/// An operand as EQ and NEQ read it: a `$name` operand is looked up in the
/// store (empty if absent); anything else stands for itself.
pub open spec fn spec_static_or_var(vars: Seq<(Seq<char>, Seq<char>)>, v: Seq<char>) -> Seq<char> {
    if v.len() > 0 && v[0] == '$' {
        match spec_lookup(vars, v.drop_first()) {
            Some(x) => x,
            None => Seq::empty(),
        }
    } else {
        v
    }
}

/// What EQ (`want_equal`) and NEQ (`!want_equal`) do: compare the two
/// operands and bind `eq_result` to `TRUE` or `FALSE`.
pub open spec fn spec_eqcheck_ctx(c: CtxV, left: Seq<char>, right: Seq<char>, want_equal: bool) -> CtxV {
    let equal = spec_static_or_var(c.vars, left) == spec_static_or_var(c.vars, right);
    let text = if equal == want_equal {
        "TRUE"@
    } else {
        "FALSE"@
    };
    CtxV { vars: spec_insert(c.vars, "eq_result"@, text), ..c }
}

/// What IF does: evaluate the comparison on the expanded operands, clear any
/// previous skip state, and skip until ENDIF exactly when the comparison is
/// false.  An unknown operator is an error.
pub open spec fn spec_if_ctx(c: CtxV, var: Seq<char>, op: Seq<char>, expected: Seq<char>) -> Result<
    CtxV,
    Seq<char>,
> {
    let cond = spec_expand(c.vars, var);
    let exp = spec_expand(c.vars, expected);
    if op == "IS"@ || op == "NOT"@ || op == "CONTAINS"@ || op == "NOTCONTAINS"@ {
        let skip = if op == "IS"@ {
            cond != exp
        } else if op == "NOT"@ {
            cond == exp
        } else if op == "CONTAINS"@ {
            !spec_contains(cond, exp)
        } else {
            spec_contains(cond, exp)
        };
        Ok(
            CtxV {
                skip: if skip {
                    Some("ENDIF"@)
                } else {
                    None
                },
                ..c
            },
        )
    } else {
        Err("Unknown operator: "@ + op)
    }
}

/// The text between the first `$` of `e` and the next `$` or the end: the
/// variable name PRINT looks up.
pub open spec fn spec_dollar_name(e: Seq<char>) -> Seq<char> {
    let i = spec_first_idx(e, '$') as int;
    let t = e.skip(i + 1);
    t.take(spec_first_idx(t, '$') as int)
}

/// What PRINT does: expand the text; if a `$` remains, look the name after
/// it up and print the value (an absent name is an error), else print the
/// expanded text.
pub open spec fn spec_print_ctx(c: CtxV, text: Seq<char>) -> Result<CtxV, Seq<char>> {
    let e = spec_expand(c.vars, text);
    if spec_contains_char(e, '$') {
        let name = spec_dollar_name(e);
        match spec_lookup(c.vars, name) {
            Some(v) => Ok(CtxV { output: c.output.push(v), ..c }),
            None => Err("Variable "@ + name + " not found"@),
        }
    } else {
        Ok(CtxV { output: c.output.push(e), ..c })
    }
}

// ---------------------------------------------------------------------------
// Effects: the outside work a command asks for, and what came of it.
// The VM pauses on an effect; the caller performs it and hands the result
// back.
// ---------------------------------------------------------------------------

/// Outside work requested by a command.
#[derive(Clone)]
pub enum Effect {
    /// INPUT: read one line from standard input, to be bound to `var`.
    ReadLine { var: String },
    /// EXEC: run `cmd` through the shell.
    Shell { cmd: String },
    /// NPM: run the npm subcommand `cmd`.
    Npm { cmd: String },
    /// LIBCALL git: run git with the given subcommand and arguments.
    Git { cmd: String, args: String },
    /// LIBCALL httpget: fetch the body of `url`.
    HttpGet { url: String },
    /// LIBCALL writef: write `data` to the file `filename`.
    WriteFile { filename: String, data: String },
}

/// The ghost model of an effect.
pub ghost enum EffectV {
    ReadLine { var: Seq<char> },
    Shell { cmd: Seq<char> },
    Npm { cmd: Seq<char> },
    Git { cmd: Seq<char>, args: Seq<char> },
    HttpGet { url: Seq<char> },
    WriteFile { filename: Seq<char>, data: Seq<char> },
}

impl View for Effect {
    type V = EffectV;

    open spec fn view(&self) -> EffectV {
        match self {
            Effect::ReadLine { var } => EffectV::ReadLine { var: var@ },
            Effect::Shell { cmd } => EffectV::Shell { cmd: cmd@ },
            Effect::Npm { cmd } => EffectV::Npm { cmd: cmd@ },
            Effect::Git { cmd, args } => EffectV::Git { cmd: cmd@, args: args@ },
            Effect::HttpGet { url } => EffectV::HttpGet { url: url@ },
            Effect::WriteFile { filename, data } => EffectV::WriteFile {
                filename: filename@,
                data: data@,
            },
        }
    }
}

/// What performing an effect yielded, handed back to the VM.  The variant
/// must match the pending effect.
pub enum EffectResult {
    /// The line read for INPUT (not yet trimmed).
    ReadLine { line: String },
    /// What the shell run did: a spawn failure, or the captured output and
    /// exit status (`status` is the status rendered as text).
    Shell { spawn_error: Option<String>, stdout: String, success: bool, status: String },
    /// What the npm run did: a spawn failure or nothing.
    Npm { spawn_error: Option<String> },
    /// What the git run did, as for the shell.
    Git { spawn_error: Option<String>, stdout: String, success: bool, status: String },
    /// The fetched body for httpget.
    HttpGet { body: String },
    /// The file was written; a failure to open the file is ignored.
    WriteFile,
}

/// The ghost model of an effect result.
pub ghost enum EffectResultV {
    ReadLine { line: Seq<char> },
    Shell { spawn_error: Option<Seq<char>>, stdout: Seq<char>, success: bool, status: Seq<char> },
    Npm { spawn_error: Option<Seq<char>> },
    Git { spawn_error: Option<Seq<char>>, stdout: Seq<char>, success: bool, status: Seq<char> },
    HttpGet { body: Seq<char> },
    WriteFile,
}

impl View for EffectResult {
    type V = EffectResultV;

    open spec fn view(&self) -> EffectResultV {
        match self {
            EffectResult::ReadLine { line } => EffectResultV::ReadLine { line: line@ },
            EffectResult::Shell { spawn_error, stdout, success, status } => EffectResultV::Shell {
                spawn_error: match spawn_error {
                    Some(e) => Some(e@),
                    None => None,
                },
                stdout: stdout@,
                success: *success,
                status: status@,
            },
            EffectResult::Npm { spawn_error } => EffectResultV::Npm {
                spawn_error: match spawn_error {
                    Some(e) => Some(e@),
                    None => None,
                },
            },
            EffectResult::Git { spawn_error, stdout, success, status } => EffectResultV::Git {
                spawn_error: match spawn_error {
                    Some(e) => Some(e@),
                    None => None,
                },
                stdout: stdout@,
                success: *success,
                status: status@,
            },
            EffectResult::HttpGet { body } => EffectResultV::HttpGet { body: body@ },
            EffectResult::WriteFile => EffectResultV::WriteFile,
        }
    }
}

} // verus!
