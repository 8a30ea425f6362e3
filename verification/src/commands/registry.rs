//! The command registry: maps a keyword, case-insensitively, to the factory
//! that validates the argument shape and constructs the bound command.

use vstd::pervasive::VecAdditionalExecFns;
use vstd::prelude::*;
use vstd::string::*;

use crate::command::CmdV;
use crate::command::Command;
use crate::commands::AbortCommand;
use crate::commands::DefCommand;
use crate::commands::EndFnCommand;
use crate::commands::EndIfCommand;
use crate::commands::EqCommand;
use crate::commands::ExecCommand;
use crate::commands::FnCallCommand;
use crate::commands::FnDefCommand;
use crate::commands::IfCommand;
use crate::commands::InputCommand;
use crate::commands::LibCallCommand;
use crate::commands::MovCommand;
use crate::commands::NeqCommand;
use crate::commands::NpmCommand;
use crate::commands::PrintCommand;
use crate::text::chars_of;
use crate::text::join_from;
use crate::text::spec_join_sp;
use crate::text::spec_upper;
use crate::text::str_eq;
use crate::text::string_of;
use crate::text::upper_chars;

verus! {

broadcast use {vstd::seq::group_seq_axioms, crate::text::lemma_vec_deep_view};

/// Which factory a keyword is bound to.  Factories are drawn from this
/// closed set; each validates its argument count and shape.
#[derive(Clone, Copy)]
pub enum CommandKind {
    Def,
    Mov,
    Exec,
    Eq,
    Neq,
    Npm,
    FnDef,
    Call,
    EndFn,
    Input,
    LibCall,
    If,
    EndIf,
    Abort,
    Print,
}

/// What the factory for `kind` constructs from `args` (the tokens after the
/// command name), or the construction-time error it reports.
pub open spec fn spec_build(kind: CommandKind, args: Seq<Seq<char>>) -> Result<CmdV, Seq<char>> {
    match kind {
        CommandKind::Def => if args.len() < 2 {
            Err("DEF requires variable name and value"@)
        } else {
            Ok(CmdV::Def { name: args[0], value: spec_join_sp(args.skip(1)) })
        },
        CommandKind::Mov => if args.len() < 2 {
            Err("MOV requires two arguments"@)
        } else {
            Ok(CmdV::Mov { name: args[0], value: spec_join_sp(args.skip(1)) })
        },
        CommandKind::Exec => if args.len() == 0 {
            Err("EXEC requires a command"@)
        } else {
            Ok(CmdV::Exec { cmd: spec_join_sp(args) })
        },
        CommandKind::Eq => if args.len() != 2 {
            Err("EQ requires two arguments"@)
        } else {
            Ok(CmdV::Eq { left: args[0], right: args[1] })
        },
        CommandKind::Neq => if args.len() != 2 {
            Err("NEQ requires two arguments"@)
        } else {
            Ok(CmdV::Neq { left: args[0], right: args[1] })
        },
        CommandKind::Npm => if args.len() == 0 {
            Err("NPM requires a command"@)
        } else {
            Ok(CmdV::Npm { cmd: spec_join_sp(args) })
        },
        CommandKind::FnDef => if args.len() < 2 || args[1] != "DO"@ {
            Err("Function definition must be in format: FN name DO"@)
        } else {
            Ok(CmdV::FnDef { name: args[0], body: Seq::empty() })
        },
        CommandKind::Call => if args.len() == 0 {
            Err("CALL requires a function name"@)
        } else {
            Ok(CmdV::FnCall { name: args[0] })
        },
        CommandKind::EndFn => Ok(CmdV::EndFn),
        CommandKind::Input => if args.len() == 0 {
            Err("INPUT requires a variable name"@)
        } else {
            Ok(CmdV::Input { var: args[0] })
        },
        CommandKind::LibCall => if args.len() == 0 {
            Err("LIBCALL requires a library name"@)
        } else {
            Ok(CmdV::LibCall { name: args[0] })
        },
        CommandKind::If => if args.len() != 3 || !(args[1] == "IS"@ || args[1] == "NOT"@ || args[1]
            == "CONTAINS"@ || args[1] == "NOTCONTAINS"@) {
            Err("IF requires a condition variable"@)
        } else {
            Ok(CmdV::If { expected: args[2], var: args[0], op: args[1] })
        },
        CommandKind::EndIf => Ok(CmdV::EndIf),
        CommandKind::Abort => Ok(CmdV::Abort { message: spec_join_sp(args) }),
        CommandKind::Print => Ok(CmdV::Print { text: spec_join_sp(args) }),
    }
}

/// The factory bound to `key` in the registry, if any: the first entry with
/// that exact (already upper-cased) key.
pub open spec fn spec_reg_lookup(reg: Seq<(Seq<char>, CommandKind)>, key: Seq<char>) -> Option<
    CommandKind,
>
    decreases reg.len(),
{
    if reg.len() == 0 {
        None
    } else if reg[0].0 == key {
        Some(reg[0].1)
    } else {
        spec_reg_lookup(reg.drop_first(), key)
    }
}

/// The registry with `key` bound to `kind` (replacing an earlier binding).
pub open spec fn spec_reg_insert(
    reg: Seq<(Seq<char>, CommandKind)>,
    key: Seq<char>,
    kind: CommandKind,
) -> Seq<(Seq<char>, CommandKind)>
    decreases reg.len(),
{
    if reg.len() == 0 {
        seq![(key, kind)]
    } else if reg[0].0 == key {
        seq![(key, kind)] + reg.drop_first()
    } else {
        seq![reg[0]] + spec_reg_insert(reg.drop_first(), key, kind)
    }
}

/// What `create_command` yields for the full token list `tokens` (command
/// name first): unknown keyword, a factory error, or the built command.
pub open spec fn spec_create(
    reg: Seq<(Seq<char>, CommandKind)>,
    name: Seq<char>,
    tokens: Seq<Seq<char>>,
) -> Result<CmdV, Seq<char>> {
    match spec_reg_lookup(reg, spec_upper(name)) {
        None => Err("Unknown command: "@ + name),
        Some(kind) => spec_build(kind, tokens.drop_first()),
    }
}

/// Builds the command for `kind` from the argument strings, validating
/// their count and shape.
pub fn build_command(kind: CommandKind, args: &Vec<String>) -> (r: Result<Command, String>)
    ensures
        (match r {
            Ok(c) => spec_build(kind, args.deep_view()) matches Ok(cv) && c@ == cv,
            Err(e) => spec_build(kind, args.deep_view()) matches Err(ee) && e@ == ee,
        }),
{
    match kind {
        CommandKind::Def => {
            if args.len() < 2 {
                Err(String::from_str("DEF requires variable name and value"))
            } else {
                let value = join_from(args, 1);
                Ok(Command::Def(DefCommand::new(args[0].clone(), value)))
            }
        },
        CommandKind::Mov => {
            if args.len() < 2 {
                Err(String::from_str("MOV requires two arguments"))
            } else {
                let value = join_from(args, 1);
                Ok(Command::Mov(MovCommand::new(args[0].clone(), value)))
            }
        },
        CommandKind::Exec => {
            if args.len() == 0 {
                Err(String::from_str("EXEC requires a command"))
            } else {
                let cmd = join_from(args, 0);
                proof {
                    assert(args.deep_view().skip(0) =~= args.deep_view());
                }
                Ok(Command::Exec(ExecCommand::new(cmd)))
            }
        },
        CommandKind::Eq => {
            if args.len() != 2 {
                Err(String::from_str("EQ requires two arguments"))
            } else {
                Ok(Command::Eq(EqCommand::new(args[0].clone(), args[1].clone())))
            }
        },
        CommandKind::Neq => {
            if args.len() != 2 {
                Err(String::from_str("NEQ requires two arguments"))
            } else {
                Ok(Command::Neq(NeqCommand::new(args[0].clone(), args[1].clone())))
            }
        },
        CommandKind::Npm => {
            if args.len() == 0 {
                Err(String::from_str("NPM requires a command"))
            } else {
                let cmd = join_from(args, 0);
                proof {
                    assert(args.deep_view().skip(0) =~= args.deep_view());
                }
                Ok(Command::Npm(NpmCommand::new(cmd)))
            }
        },
        CommandKind::FnDef => {
            if args.len() < 2 || !str_eq(args[1].as_str(), "DO") {
                Err(String::from_str("Function definition must be in format: FN name DO"))
            } else {
                let body: Vec<String> = Vec::new();
                let c = Command::FnDef(FnDefCommand::new(args[0].clone(), body));
                proof {
                    assert(c@ matches CmdV::FnDef { body: b, .. } && b =~= Seq::<
                        Seq<char>,
                    >::empty());
                }
                Ok(c)
            }
        },
        CommandKind::Call => {
            if args.len() == 0 {
                Err(String::from_str("CALL requires a function name"))
            } else {
                Ok(Command::FnCall(FnCallCommand::new(args[0].clone())))
            }
        },
        CommandKind::EndFn => Ok(Command::EndFn(EndFnCommand::new())),
        CommandKind::Input => {
            if args.len() == 0 {
                Err(String::from_str("INPUT requires a variable name"))
            } else {
                Ok(Command::Input(InputCommand::new(args[0].clone())))
            }
        },
        CommandKind::LibCall => {
            if args.len() == 0 {
                Err(String::from_str("LIBCALL requires a library name"))
            } else {
                Ok(Command::LibCall(LibCallCommand::new(args[0].clone())))
            }
        },
        CommandKind::If => {
            let shape_ok = args.len() == 3 && (str_eq(args[1].as_str(), "IS") || str_eq(
                args[1].as_str(),
                "NOT",
            ) || str_eq(args[1].as_str(), "CONTAINS") || str_eq(args[1].as_str(), "NOTCONTAINS"));
            if !shape_ok {
                Err(String::from_str("IF requires a condition variable"))
            } else {
                Ok(
                    Command::If(
                        IfCommand::new(args[2].clone(), args[0].clone(), args[1].clone()),
                    ),
                )
            }
        },
        CommandKind::EndIf => Ok(Command::EndIf(EndIfCommand)),
        CommandKind::Abort => {
            let message = join_from(args, 0);
            proof {
                assert(args.deep_view().skip(0) =~= args.deep_view());
            }
            Ok(Command::Abort(AbortCommand::new(message)))
        },
        CommandKind::Print => {
            let text = join_from(args, 0);
            proof {
                assert(args.deep_view().skip(0) =~= args.deep_view());
            }
            Ok(Command::Print(PrintCommand::new(text)))
        },
    }
}

/// The registry: an ordered table from upper-cased keyword to factory.
#[derive(Clone)]
pub struct CommandRegistry {
    pub factories: Vec<(String, CommandKind)>,
}

impl View for CommandRegistry {
    type V = Seq<(Seq<char>, CommandKind)>;

    open spec fn view(&self) -> Seq<(Seq<char>, CommandKind)> {
        self.factories.deep_view()
    }
}

impl DeepView for CommandKind {
    type V = CommandKind;

    open spec fn deep_view(&self) -> CommandKind {
        *self
    }
}

/// The registry as `CommandRegistry::new` builds it.
pub open spec fn spec_base_registry() -> Seq<(Seq<char>, CommandKind)> {
    seq![
        ("DEF"@, CommandKind::Def),
        ("EXEC"@, CommandKind::Exec),
        ("NPM"@, CommandKind::Npm),
        ("IF"@, CommandKind::If),
        ("ENDIF"@, CommandKind::EndIf),
        ("ABORT"@, CommandKind::Abort),
        ("PRINT"@, CommandKind::Print),
    ]
}

impl CommandRegistry {
    /// Creates a registry holding the factories every parser starts from.
    pub fn new() -> (r: CommandRegistry)
        ensures
            r@ == spec_base_registry(),
    {
        let mut registry = CommandRegistry { factories: Vec::new() };
        proof {
            assert(registry@ =~= Seq::<(Seq<char>, CommandKind)>::empty());
        }
        registry.register("DEF", "DEF", CommandKind::Def);
        proof {
            reveal_with_fuel(spec_reg_insert, 9);
            reveal_strlit("DEF");
            assert(spec_upper("DEF"@) =~= "DEF"@);
            assert(registry@ =~= seq![("DEF"@, CommandKind::Def)]);
        }
        registry.register("EXEC", "EXEC", CommandKind::Exec);
        proof {
            reveal_with_fuel(spec_reg_insert, 9);
            reveal_strlit("DEF");
            reveal_strlit("EXEC");
            reveal_strlit("NPM");
            reveal_strlit("IF");
            reveal_strlit("ENDIF");
            reveal_strlit("ABORT");
            reveal_with_fuel(spec_reg_insert, 9);
            reveal_strlit("DEF");
            reveal_strlit("EXEC");
            reveal_strlit("NPM");
            reveal_strlit("IF");
            reveal_strlit("ENDIF");
            reveal_strlit("ABORT");
            reveal_strlit("PRINT");
            assert(spec_upper("EXEC"@) =~= "EXEC"@);
            assert(registry@ =~= seq![("DEF"@, CommandKind::Def), ("EXEC"@, CommandKind::Exec)]);
        }
        registry.register("NPM", "NPM", CommandKind::Npm);
        proof {
            reveal_with_fuel(spec_reg_insert, 9);
            reveal_strlit("DEF");
            reveal_strlit("EXEC");
            reveal_strlit("NPM");
            reveal_strlit("IF");
            reveal_strlit("ENDIF");
            reveal_strlit("ABORT");
            reveal_with_fuel(spec_reg_insert, 9);
            reveal_strlit("DEF");
            reveal_strlit("EXEC");
            reveal_strlit("NPM");
            reveal_strlit("IF");
            reveal_strlit("ENDIF");
            reveal_strlit("ABORT");
            reveal_strlit("PRINT");
            assert(spec_upper("NPM"@) =~= "NPM"@);
            assert("NPM"@[0] != "DEF"@[0]);
            assert("NPM"@ != "DEF"@);
            assert(registry@ =~= seq![
                ("DEF"@, CommandKind::Def),
                ("EXEC"@, CommandKind::Exec),
                ("NPM"@, CommandKind::Npm),
            ]);
        }
        registry.register("IF", "IF", CommandKind::If);
        proof {
            reveal_with_fuel(spec_reg_insert, 9);
            reveal_strlit("DEF");
            reveal_strlit("EXEC");
            reveal_strlit("NPM");
            reveal_strlit("IF");
            reveal_strlit("ENDIF");
            reveal_strlit("ABORT");
            reveal_with_fuel(spec_reg_insert, 9);
            reveal_strlit("DEF");
            reveal_strlit("EXEC");
            reveal_strlit("NPM");
            reveal_strlit("IF");
            reveal_strlit("ENDIF");
            reveal_strlit("ABORT");
            reveal_strlit("PRINT");
            assert(spec_upper("IF"@) =~= "IF"@);
            assert(registry@ =~= seq![
                ("DEF"@, CommandKind::Def),
                ("EXEC"@, CommandKind::Exec),
                ("NPM"@, CommandKind::Npm),
                ("IF"@, CommandKind::If),
            ]);
        }
        registry.register("ENDIF", "ENDIF", CommandKind::EndIf);
        proof {
            reveal_with_fuel(spec_reg_insert, 9);
            reveal_strlit("DEF");
            reveal_strlit("EXEC");
            reveal_strlit("NPM");
            reveal_strlit("IF");
            reveal_strlit("ENDIF");
            reveal_strlit("ABORT");
            reveal_with_fuel(spec_reg_insert, 9);
            reveal_strlit("DEF");
            reveal_strlit("EXEC");
            reveal_strlit("NPM");
            reveal_strlit("IF");
            reveal_strlit("ENDIF");
            reveal_strlit("ABORT");
            reveal_strlit("PRINT");
            assert(spec_upper("ENDIF"@) =~= "ENDIF"@);
            assert(registry@ =~= seq![
                ("DEF"@, CommandKind::Def),
                ("EXEC"@, CommandKind::Exec),
                ("NPM"@, CommandKind::Npm),
                ("IF"@, CommandKind::If),
                ("ENDIF"@, CommandKind::EndIf),
            ]);
        }
        registry.register("ABORT", "ABORT", CommandKind::Abort);
        proof {
            reveal_with_fuel(spec_reg_insert, 9);
            reveal_strlit("DEF");
            reveal_strlit("EXEC");
            reveal_strlit("NPM");
            reveal_strlit("IF");
            reveal_strlit("ENDIF");
            reveal_strlit("ABORT");
            reveal_with_fuel(spec_reg_insert, 9);
            reveal_strlit("DEF");
            reveal_strlit("EXEC");
            reveal_strlit("NPM");
            reveal_strlit("IF");
            reveal_strlit("ENDIF");
            reveal_strlit("ABORT");
            reveal_strlit("PRINT");
            assert(spec_upper("ABORT"@) =~= "ABORT"@);
            assert("ABORT"@[0] != "ENDIF"@[0]);
            assert("ABORT"@ != "ENDIF"@);
            assert(registry@ =~= seq![
                ("DEF"@, CommandKind::Def),
                ("EXEC"@, CommandKind::Exec),
                ("NPM"@, CommandKind::Npm),
                ("IF"@, CommandKind::If),
                ("ENDIF"@, CommandKind::EndIf),
                ("ABORT"@, CommandKind::Abort),
            ]);
        }
        registry.register("PRINT", "PRINT", CommandKind::Print);
        proof {
            reveal_with_fuel(spec_reg_insert, 9);
            reveal_strlit("DEF");
            reveal_strlit("EXEC");
            reveal_strlit("NPM");
            reveal_strlit("IF");
            reveal_strlit("ENDIF");
            reveal_strlit("ABORT");
            reveal_strlit("PRINT");
            assert(spec_upper("PRINT"@) =~= "PRINT"@);
            assert("PRINT"@[0] != "ENDIF"@[0]);
            assert("PRINT"@ != "ENDIF"@);
            assert("PRINT"@[0] != "ABORT"@[0]);
            assert("PRINT"@ != "ABORT"@);
            assert(registry@ =~= spec_base_registry());
        }
        registry
    }

    /// Installs the factory `kind` for `name`, case-insensitively; an
    /// earlier binding for the same keyword is replaced.  `factory_name` is
    /// kept for diagnostics only.
    #[verifier::loop_isolation(false)]
    pub fn register(&mut self, name: &str, factory_name: &str, kind: CommandKind)
        ensures
            final(self)@ == spec_reg_insert(old(self)@, spec_upper(name@), kind),
    {
        let _ = factory_name;
        let upper = string_of(&upper_chars(&chars_of(name)));
        let ghost dv = self.factories.deep_view();
        let ghost key = spec_upper(name@);
        let n: usize = self.factories.len();
        let mut i: usize = 0;
        proof {
            assert(dv.skip(0) =~= dv);
            assert(dv.take(0) =~= Seq::<(Seq<char>, CommandKind)>::empty());
        }
        while i < n
            invariant
                i <= n,
                n == self.factories.len(),
                dv == self.factories.deep_view(),
                *self == *old(self),
                upper@ == key,
                spec_reg_insert(dv, key, kind) == dv.take(i as int) + spec_reg_insert(
                    dv.skip(i as int),
                    key,
                    kind,
                ),
            decreases n - i,
        {
            proof {
                assert(dv.skip(i as int)[0] == dv[i as int]);
                assert(dv.skip(i as int).drop_first() =~= dv.skip(i as int + 1));
            }
            let hit = str_eq(self.factories[i].0.as_str(), upper.as_str());
            if hit {
                self.factories.set(i, (upper, kind));
                proof {
                    assert(self.factories.deep_view() =~= dv.take(i as int) + (seq![(key, kind)]
                        + dv.skip(i as int + 1)));
                }
                return ;
            }
            proof {
                assert(dv.take(i as int) + (seq![dv[i as int]] + spec_reg_insert(
                    dv.skip(i as int + 1),
                    key,
                    kind,
                )) =~= dv.take(i as int + 1) + spec_reg_insert(dv.skip(i as int + 1), key, kind));
            }
            i = i + 1;
        }
        self.factories.push((upper, kind));
        proof {
            assert(dv.skip(n as int) =~= Seq::<(Seq<char>, CommandKind)>::empty());
            assert(dv.take(n as int) =~= dv);
            assert(self.factories.deep_view() =~= dv.take(n as int) + spec_reg_insert(
                dv.skip(n as int),
                key,
                kind,
            ));
        }
    }

    /// The factory bound to the exact key `key`, if any.
    #[verifier::loop_isolation(false)]
    fn lookup_kind(&self, key: &String) -> (r: Option<CommandKind>)
        ensures
            r == spec_reg_lookup(self@, key@),
    {
        let ghost dv = self.factories.deep_view();
        let n: usize = self.factories.len();
        let mut i: usize = 0;
        proof {
            assert(dv.skip(0) =~= dv);
        }
        while i < n
            invariant
                i <= n,
                spec_reg_lookup(dv, key@) == spec_reg_lookup(dv.skip(i as int), key@),
            decreases n - i,
        {
            proof {
                assert(dv.skip(i as int)[0] == dv[i as int]);
                assert(dv.skip(i as int).drop_first() =~= dv.skip(i as int + 1));
            }
            let hit = str_eq(self.factories[i].0.as_str(), key.as_str());
            if hit {
                return Some(self.factories[i].1);
            }
            i = i + 1;
        }
        proof {
            assert(dv.skip(n as int) =~= Seq::<(Seq<char>, CommandKind)>::empty());
        }
        None
    }

    /// Looks the keyword up case-insensitively and runs its factory on the
    /// remaining tokens.  `args` is the full token list, command name
    /// included.
    #[verifier::loop_isolation(false)]
    pub fn create_command(&self, name: &str, args: Vec<&str>) -> (r: Result<Command, String>)
        requires
            args@.len() >= 1,
        ensures
            (match r {
                Ok(c) => spec_create(self@, name@, args.deep_view()) matches Ok(cv) && c@ == cv,
                Err(e) => spec_create(self@, name@, args.deep_view()) matches Err(ee) && e@ == ee,
            }),
    {
        let upper = string_of(&upper_chars(&chars_of(name)));
        let found = self.lookup_kind(&upper);
        match found {
            None => {
                let mut e = String::from_str("Unknown command: ");
                e.append(name);
                Err(e)
            },
            Some(kind) => {
                let mut rest: Vec<String> = Vec::new();
                let mut k: usize = 1;
                while k < args.len()
                    invariant
                        1 <= k <= args@.len(),
                        rest.deep_view() == args.deep_view().subrange(1, k as int),
                    decreases args.len() - k,
                {
                    let mut s = String::new();
                    s.append(args[k]);
                    rest.push(s);
                    k = k + 1;
                    proof {
                        assert(rest.deep_view() =~= args.deep_view().subrange(1, k as int));
                    }
                }
                proof {
                    assert(rest.deep_view() =~= args.deep_view().drop_first());
                }
                build_command(kind, &rest)
            },
        }
    }
}

} // verus!
