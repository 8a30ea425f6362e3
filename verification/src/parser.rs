//! The parser: consumes one line at a time, recognizes macro lines and
//! command lines, and produces zero or one command.
//!
//! A macro line `!name arg0 arg1 …` (a leading `$` is accepted as the
//! marker as well) expands into `MOV r0 arg0`, `MOV r1 arg1`, …, then
//! `LIBCALL name`; the synthesized lines run through the same parsing path
//! as user-written ones, so they are validated identically.

use vstd::prelude::*;
use vstd::string::*;

use crate::command::clone_strings;
use crate::command::cmds_view;
use crate::command::CmdV;
use crate::command::Command;
use crate::command::MultiCommand;
use crate::commands::registry::spec_create;
use crate::commands::registry::CommandKind;
use crate::commands::registry::CommandRegistry;
use crate::text::chars_of;
use crate::text::push_decimal;
use crate::text::spec_decimal;
use crate::text::spec_split_ws;
use crate::text::spec_trim;
use crate::text::split_ws;
use crate::text::trim_chars;

verus! {

broadcast use {vstd::seq::group_seq_axioms, crate::text::lemma_vec_deep_view};

/// The ghost model of a parser: the running line counter, the token list of
/// the last regular command parsed, and the registry table.
pub ghost struct ParserV {
    pub current_line: int,
    pub last_args: Seq<Seq<char>>,
    pub registry: Seq<(Seq<char>, CommandKind)>,
}

/// The line counter after one more line (it saturates instead of wrapping).
pub open spec fn spec_bump(p: ParserV) -> ParserV {
    ParserV {
        current_line: if p.current_line < usize::MAX as int {
            p.current_line + 1
        } else {
            p.current_line
        },
        ..p
    }
}

/// Whether a trimmed line is blank or a comment.
pub open spec fn spec_blank_or_comment(t: Seq<char>) -> bool {
    ||| t.len() == 0
    ||| (t.len() >= 2 && t[0] == '/' && t[1] == '/')
    ||| (t.len() >= 2 && t[0] == '-' && t[1] == '-')
}

/// What parsing the trimmed text of a regular command line does: split into
/// whitespace-separated tokens, remember them, and dispatch to the registry.
pub open spec fn spec_parse_regular(p: ParserV, t: Seq<char>) -> (ParserV, Result<
    Option<CmdV>,
    Seq<char>,
>) {
    let tokens = spec_split_ws(t);
    if tokens.len() == 0 {
        (p, Ok(None))
    } else {
        let p2 = ParserV { last_args: tokens, ..p };
        match spec_create(p.registry, tokens[0], tokens) {
            Ok(c) => (p2, Ok(Some(c))),
            Err(e) => (p2, Err(e)),
        }
    }
}

/// What parsing one line does when the line carries no macro marker: count
/// it, drop blanks and comments, else parse it as a regular command.  The
/// synthesized lines of a macro expansion take exactly this path.
pub open spec fn spec_parse_simple(p: ParserV, line: Seq<char>) -> (ParserV, Result<
    Option<CmdV>,
    Seq<char>,
>) {
    let p1 = spec_bump(p);
    let t = spec_trim(line);
    if spec_blank_or_comment(t) {
        (p1, Ok(None))
    } else {
        spec_parse_regular(p1, t)
    }
}

/// The line synthesized for the `i`-th macro argument.
pub open spec fn spec_mov_line(i: nat, arg: Seq<char>) -> Seq<char> {
    "MOV r"@ + spec_decimal(i) + seq![' '] + arg
}

/// What synthesizing and parsing `MOV r<i> <arg>` lines for the arguments
/// from index `i` on does: the parser state threads through every
/// synthesized parse, and the first error wins.
pub open spec fn spec_gen_movs(p: ParserV, args: Seq<Seq<char>>, i: nat) -> (ParserV, Result<
    Seq<CmdV>,
    Seq<char>,
>)
    decreases args.len() - i,
{
    if i >= args.len() {
        (p, Ok(Seq::empty()))
    } else {
        let (p2, r) = spec_parse_simple(p, spec_mov_line(i, args[i as int]));
        match r {
            Err(e) => (p2, Err(e)),
            Ok(None) => spec_gen_movs(p2, args, i + 1),
            Ok(Some(c)) => {
                let (p3, rr) = spec_gen_movs(p2, args, i + 1);
                match rr {
                    Err(e) => (p3, Err(e)),
                    Ok(rest) => (p3, Ok(seq![c] + rest)),
                }
            },
        }
    }
}

/// What synthesizing and parsing the `LIBCALL <name>` line does.
pub open spec fn spec_add_libcall(p: ParserV, name: Seq<char>) -> (ParserV, Result<
    Seq<CmdV>,
    Seq<char>,
>) {
    let (p2, r) = spec_parse_simple(p, "LIBCALL "@ + name);
    (
        p2,
        match r {
            Err(e) => Err(e),
            Ok(None) => Ok(Seq::empty()),
            Ok(Some(c)) => Ok(seq![c]),
        },
    )
}

/// What parsing a macro line does, `t` being the trimmed line with the
/// marker still in front: the arguments become register moves, the name a
/// library call, and the whole expansion one composite command.
pub open spec fn spec_parse_macro(p1: ParserV, t: Seq<char>) -> (ParserV, Result<
    Option<CmdV>,
    Seq<char>,
>) {
    let tokens = spec_split_ws(t.drop_first());
    if tokens.len() == 0 {
        (p1, Err("Empty macro"@))
    } else {
        let (p2, movs) = spec_gen_movs(p1, tokens.drop_first(), 0);
        match movs {
            Err(e) => (p2, Err(e)),
            Ok(ms) => {
                let (p3, lc) = spec_add_libcall(p2, tokens[0]);
                match lc {
                    Err(e) => (p3, Err(e)),
                    Ok(cs) => (p3, Ok(Some(CmdV::Multi { cmds: ms + cs }))),
                }
            },
        }
    }
}

/// What parsing one line does: count it; blanks and comments yield nothing;
/// a leading marker expands a macro; anything else is a regular command.
pub open spec fn spec_parse_line(p: ParserV, line: Seq<char>) -> (ParserV, Result<
    Option<CmdV>,
    Seq<char>,
>) {
    let p1 = spec_bump(p);
    let t = spec_trim(line);
    if spec_blank_or_comment(t) {
        (p1, Ok(None))
    } else if t[0] == '!' || t[0] == '$' {
        spec_parse_macro(p1, t)
    } else {
        spec_parse_regular(p1, t)
    }
}

/// The stateful parser.
#[derive(Clone)]
pub struct Parser {
    pub current_line: usize,
    pub registry: CommandRegistry,
    pub last_args: Vec<String>,
}

impl View for Parser {
    type V = ParserV;

    open spec fn view(&self) -> ParserV {
        ParserV {
            current_line: self.current_line as int,
            last_args: self.last_args.deep_view(),
            registry: self.registry@,
        }
    }
}

/// The registry as `Parser::new` leaves it: the base table with the
/// parser's own registrations applied, replacements in place and new
/// keywords appended in order.
pub open spec fn spec_full_registry() -> Seq<(Seq<char>, CommandKind)> {
    seq![
        ("DEF"@, CommandKind::Def),
        ("EXEC"@, CommandKind::Exec),
        ("NPM"@, CommandKind::Npm),
        ("IF"@, CommandKind::If),
        ("ENDIF"@, CommandKind::EndIf),
        ("ABORT"@, CommandKind::Abort),
        ("PRINT"@, CommandKind::Print),
        ("MOV"@, CommandKind::Mov),
        ("EQ"@, CommandKind::Eq),
        ("NEQ"@, CommandKind::Neq),
        ("FN"@, CommandKind::FnDef),
        ("CALL"@, CommandKind::Call),
        ("ENDFN"@, CommandKind::EndFn),
        ("INPUT"@, CommandKind::Input),
        ("LIBCALL"@, CommandKind::LibCall),
    ]
}

/// The state every parser starts from.
pub open spec fn spec_parser_init() -> ParserV {
    ParserV { current_line: 0, last_args: Seq::empty(), registry: spec_full_registry() }
}

impl Parser {
    /// Creates a parser with all built-in commands registered.
    #[verifier::rlimit(100)]
    #[verifier::spinoff_prover]
    pub fn new() -> (r: Parser)
        ensures
            r@ == spec_parser_init(),
    {
        let mut registry = CommandRegistry::new();
        registry.register("DEF", "DEF", CommandKind::Def);
        proof {
            reveal_with_fuel(crate::commands::registry::spec_reg_insert, 20);
            reveal_strlit("DEF");
            reveal_strlit("EXEC");
            reveal_strlit("NPM");
            reveal_strlit("IF");
            reveal_strlit("ENDIF");
            reveal_strlit("ABORT");
            reveal_strlit("PRINT");
            assert(crate::text::spec_upper("DEF"@) =~= "DEF"@);
            assert(registry@ =~= seq![("DEF"@, CommandKind::Def), ("EXEC"@, CommandKind::Exec), ("NPM"@, CommandKind::Npm), ("IF"@, CommandKind::If), ("ENDIF"@, CommandKind::EndIf), ("ABORT"@, CommandKind::Abort), ("PRINT"@, CommandKind::Print)]);
        }
        registry.register("MOV", "MOV", CommandKind::Mov);
        proof {
            reveal_with_fuel(crate::commands::registry::spec_reg_insert, 20);
            reveal_strlit("DEF");
            reveal_strlit("EXEC");
            reveal_strlit("NPM");
            reveal_strlit("IF");
            reveal_strlit("ENDIF");
            reveal_strlit("ABORT");
            reveal_strlit("PRINT");
            reveal_strlit("MOV");
            assert(crate::text::spec_upper("MOV"@) =~= "MOV"@);
            assert("MOV"@[0] != "DEF"@[0]);
            assert("MOV"@ != "DEF"@);
            assert("MOV"@[0] != "NPM"@[0]);
            assert("MOV"@ != "NPM"@);
            assert(registry@ =~= seq![("DEF"@, CommandKind::Def), ("EXEC"@, CommandKind::Exec), ("NPM"@, CommandKind::Npm), ("IF"@, CommandKind::If), ("ENDIF"@, CommandKind::EndIf), ("ABORT"@, CommandKind::Abort), ("PRINT"@, CommandKind::Print), ("MOV"@, CommandKind::Mov)]);
        }
        registry.register("EXEC", "EXEC", CommandKind::Exec);
        proof {
            reveal_with_fuel(crate::commands::registry::spec_reg_insert, 20);
            reveal_strlit("DEF");
            reveal_strlit("EXEC");
            reveal_strlit("NPM");
            reveal_strlit("IF");
            reveal_strlit("ENDIF");
            reveal_strlit("ABORT");
            reveal_strlit("PRINT");
            reveal_strlit("MOV");
            assert(crate::text::spec_upper("EXEC"@) =~= "EXEC"@);
            assert(registry@ =~= seq![("DEF"@, CommandKind::Def), ("EXEC"@, CommandKind::Exec), ("NPM"@, CommandKind::Npm), ("IF"@, CommandKind::If), ("ENDIF"@, CommandKind::EndIf), ("ABORT"@, CommandKind::Abort), ("PRINT"@, CommandKind::Print), ("MOV"@, CommandKind::Mov)]);
        }
        registry.register("EQ", "EQ", CommandKind::Eq);
        proof {
            reveal_with_fuel(crate::commands::registry::spec_reg_insert, 20);
            reveal_strlit("DEF");
            reveal_strlit("EXEC");
            reveal_strlit("NPM");
            reveal_strlit("IF");
            reveal_strlit("ENDIF");
            reveal_strlit("ABORT");
            reveal_strlit("PRINT");
            reveal_strlit("MOV");
            reveal_strlit("EQ");
            assert(crate::text::spec_upper("EQ"@) =~= "EQ"@);
            assert("EQ"@[0] != "IF"@[0]);
            assert("EQ"@ != "IF"@);
            assert(registry@ =~= seq![("DEF"@, CommandKind::Def), ("EXEC"@, CommandKind::Exec), ("NPM"@, CommandKind::Npm), ("IF"@, CommandKind::If), ("ENDIF"@, CommandKind::EndIf), ("ABORT"@, CommandKind::Abort), ("PRINT"@, CommandKind::Print), ("MOV"@, CommandKind::Mov), ("EQ"@, CommandKind::Eq)]);
        }
        registry.register("NEQ", "NEQ", CommandKind::Neq);
        proof {
            reveal_with_fuel(crate::commands::registry::spec_reg_insert, 20);
            reveal_strlit("DEF");
            reveal_strlit("EXEC");
            reveal_strlit("NPM");
            reveal_strlit("IF");
            reveal_strlit("ENDIF");
            reveal_strlit("ABORT");
            reveal_strlit("PRINT");
            reveal_strlit("MOV");
            reveal_strlit("EQ");
            reveal_strlit("NEQ");
            assert(crate::text::spec_upper("NEQ"@) =~= "NEQ"@);
            assert("NEQ"@[0] != "DEF"@[0]);
            assert("NEQ"@ != "DEF"@);
            assert("NEQ"@[1] != "NPM"@[1]);
            assert("NEQ"@ != "NPM"@);
            assert("NEQ"@[0] != "MOV"@[0]);
            assert("NEQ"@ != "MOV"@);
            assert(registry@ =~= seq![("DEF"@, CommandKind::Def), ("EXEC"@, CommandKind::Exec), ("NPM"@, CommandKind::Npm), ("IF"@, CommandKind::If), ("ENDIF"@, CommandKind::EndIf), ("ABORT"@, CommandKind::Abort), ("PRINT"@, CommandKind::Print), ("MOV"@, CommandKind::Mov), ("EQ"@, CommandKind::Eq), ("NEQ"@, CommandKind::Neq)]);
        }
        registry.register("NPM", "NPM", CommandKind::Npm);
        proof {
            reveal_with_fuel(crate::commands::registry::spec_reg_insert, 20);
            reveal_strlit("DEF");
            reveal_strlit("EXEC");
            reveal_strlit("NPM");
            reveal_strlit("IF");
            reveal_strlit("ENDIF");
            reveal_strlit("ABORT");
            reveal_strlit("PRINT");
            reveal_strlit("MOV");
            reveal_strlit("EQ");
            reveal_strlit("NEQ");
            assert(crate::text::spec_upper("NPM"@) =~= "NPM"@);
            assert("NPM"@[0] != "DEF"@[0]);
            assert("NPM"@ != "DEF"@);
            assert(registry@ =~= seq![("DEF"@, CommandKind::Def), ("EXEC"@, CommandKind::Exec), ("NPM"@, CommandKind::Npm), ("IF"@, CommandKind::If), ("ENDIF"@, CommandKind::EndIf), ("ABORT"@, CommandKind::Abort), ("PRINT"@, CommandKind::Print), ("MOV"@, CommandKind::Mov), ("EQ"@, CommandKind::Eq), ("NEQ"@, CommandKind::Neq)]);
        }
        registry.register("FN", "FN", CommandKind::FnDef);
        proof {
            reveal_with_fuel(crate::commands::registry::spec_reg_insert, 20);
            reveal_strlit("DEF");
            reveal_strlit("EXEC");
            reveal_strlit("NPM");
            reveal_strlit("IF");
            reveal_strlit("ENDIF");
            reveal_strlit("ABORT");
            reveal_strlit("PRINT");
            reveal_strlit("MOV");
            reveal_strlit("EQ");
            reveal_strlit("NEQ");
            reveal_strlit("FN");
            assert(crate::text::spec_upper("FN"@) =~= "FN"@);
            assert("FN"@[0] != "IF"@[0]);
            assert("FN"@ != "IF"@);
            assert("FN"@[0] != "EQ"@[0]);
            assert("FN"@ != "EQ"@);
            assert(registry@ =~= seq![("DEF"@, CommandKind::Def), ("EXEC"@, CommandKind::Exec), ("NPM"@, CommandKind::Npm), ("IF"@, CommandKind::If), ("ENDIF"@, CommandKind::EndIf), ("ABORT"@, CommandKind::Abort), ("PRINT"@, CommandKind::Print), ("MOV"@, CommandKind::Mov), ("EQ"@, CommandKind::Eq), ("NEQ"@, CommandKind::Neq), ("FN"@, CommandKind::FnDef)]);
        }
        registry.register("CALL", "CALL", CommandKind::Call);
        proof {
            reveal_with_fuel(crate::commands::registry::spec_reg_insert, 20);
            reveal_strlit("DEF");
            reveal_strlit("EXEC");
            reveal_strlit("NPM");
            reveal_strlit("IF");
            reveal_strlit("ENDIF");
            reveal_strlit("ABORT");
            reveal_strlit("PRINT");
            reveal_strlit("MOV");
            reveal_strlit("EQ");
            reveal_strlit("NEQ");
            reveal_strlit("FN");
            reveal_strlit("CALL");
            assert(crate::text::spec_upper("CALL"@) =~= "CALL"@);
            assert("CALL"@[0] != "EXEC"@[0]);
            assert("CALL"@ != "EXEC"@);
            assert(registry@ =~= seq![("DEF"@, CommandKind::Def), ("EXEC"@, CommandKind::Exec), ("NPM"@, CommandKind::Npm), ("IF"@, CommandKind::If), ("ENDIF"@, CommandKind::EndIf), ("ABORT"@, CommandKind::Abort), ("PRINT"@, CommandKind::Print), ("MOV"@, CommandKind::Mov), ("EQ"@, CommandKind::Eq), ("NEQ"@, CommandKind::Neq), ("FN"@, CommandKind::FnDef), ("CALL"@, CommandKind::Call)]);
        }
        registry.register("ENDFN", "ENDFN", CommandKind::EndFn);
        proof {
            reveal_with_fuel(crate::commands::registry::spec_reg_insert, 20);
            reveal_strlit("DEF");
            reveal_strlit("EXEC");
            reveal_strlit("NPM");
            reveal_strlit("IF");
            reveal_strlit("ENDIF");
            reveal_strlit("ABORT");
            reveal_strlit("PRINT");
            reveal_strlit("MOV");
            reveal_strlit("EQ");
            reveal_strlit("NEQ");
            reveal_strlit("FN");
            reveal_strlit("CALL");
            reveal_strlit("ENDFN");
            assert(crate::text::spec_upper("ENDFN"@) =~= "ENDFN"@);
            assert("ENDFN"@[3] != "ENDIF"@[3]);
            assert("ENDFN"@ != "ENDIF"@);
            assert("ENDFN"@[0] != "ABORT"@[0]);
            assert("ENDFN"@ != "ABORT"@);
            assert("ENDFN"@[0] != "PRINT"@[0]);
            assert("ENDFN"@ != "PRINT"@);
            assert(registry@ =~= seq![("DEF"@, CommandKind::Def), ("EXEC"@, CommandKind::Exec), ("NPM"@, CommandKind::Npm), ("IF"@, CommandKind::If), ("ENDIF"@, CommandKind::EndIf), ("ABORT"@, CommandKind::Abort), ("PRINT"@, CommandKind::Print), ("MOV"@, CommandKind::Mov), ("EQ"@, CommandKind::Eq), ("NEQ"@, CommandKind::Neq), ("FN"@, CommandKind::FnDef), ("CALL"@, CommandKind::Call), ("ENDFN"@, CommandKind::EndFn)]);
        }
        registry.register("INPUT", "INPUT", CommandKind::Input);
        proof {
            reveal_with_fuel(crate::commands::registry::spec_reg_insert, 20);
            reveal_strlit("DEF");
            reveal_strlit("EXEC");
            reveal_strlit("NPM");
            reveal_strlit("IF");
            reveal_strlit("ENDIF");
            reveal_strlit("ABORT");
            reveal_strlit("PRINT");
            reveal_strlit("MOV");
            reveal_strlit("EQ");
            reveal_strlit("NEQ");
            reveal_strlit("FN");
            reveal_strlit("CALL");
            reveal_strlit("ENDFN");
            reveal_strlit("INPUT");
            assert(crate::text::spec_upper("INPUT"@) =~= "INPUT"@);
            assert("INPUT"@[0] != "ENDIF"@[0]);
            assert("INPUT"@ != "ENDIF"@);
            assert("INPUT"@[0] != "ABORT"@[0]);
            assert("INPUT"@ != "ABORT"@);
            assert("INPUT"@[0] != "PRINT"@[0]);
            assert("INPUT"@ != "PRINT"@);
            assert("INPUT"@[0] != "ENDFN"@[0]);
            assert("INPUT"@ != "ENDFN"@);
            assert(registry@ =~= seq![("DEF"@, CommandKind::Def), ("EXEC"@, CommandKind::Exec), ("NPM"@, CommandKind::Npm), ("IF"@, CommandKind::If), ("ENDIF"@, CommandKind::EndIf), ("ABORT"@, CommandKind::Abort), ("PRINT"@, CommandKind::Print), ("MOV"@, CommandKind::Mov), ("EQ"@, CommandKind::Eq), ("NEQ"@, CommandKind::Neq), ("FN"@, CommandKind::FnDef), ("CALL"@, CommandKind::Call), ("ENDFN"@, CommandKind::EndFn), ("INPUT"@, CommandKind::Input)]);
        }
        registry.register("LIBCALL", "LIBCALL", CommandKind::LibCall);
        proof {
            reveal_with_fuel(crate::commands::registry::spec_reg_insert, 20);
            reveal_strlit("DEF");
            reveal_strlit("EXEC");
            reveal_strlit("NPM");
            reveal_strlit("IF");
            reveal_strlit("ENDIF");
            reveal_strlit("ABORT");
            reveal_strlit("PRINT");
            reveal_strlit("MOV");
            reveal_strlit("EQ");
            reveal_strlit("NEQ");
            reveal_strlit("FN");
            reveal_strlit("CALL");
            reveal_strlit("ENDFN");
            reveal_strlit("INPUT");
            reveal_strlit("LIBCALL");
            assert(crate::text::spec_upper("LIBCALL"@) =~= "LIBCALL"@);
            assert(registry@ =~= seq![("DEF"@, CommandKind::Def), ("EXEC"@, CommandKind::Exec), ("NPM"@, CommandKind::Npm), ("IF"@, CommandKind::If), ("ENDIF"@, CommandKind::EndIf), ("ABORT"@, CommandKind::Abort), ("PRINT"@, CommandKind::Print), ("MOV"@, CommandKind::Mov), ("EQ"@, CommandKind::Eq), ("NEQ"@, CommandKind::Neq), ("FN"@, CommandKind::FnDef), ("CALL"@, CommandKind::Call), ("ENDFN"@, CommandKind::EndFn), ("INPUT"@, CommandKind::Input), ("LIBCALL"@, CommandKind::LibCall)]);
        }

        let r = Parser { current_line: 0, registry, last_args: Vec::new() };
        proof {
            assert(r@.last_args =~= Seq::<Seq<char>>::empty());
        }
        r
    }

    /// Parses one line into zero or one command, or reports the first
    /// error.
    pub fn parse_line(&mut self, line: &str) -> (r: Result<Option<Command>, String>)
        ensures
            final(self)@ == spec_parse_line(old(self)@, line@).0,
            ({
                let spec_r = spec_parse_line(old(self)@, line@).1;
                match r {
                    Ok(Some(c)) => spec_r matches Ok(Some(cv)) && c@ == cv,
                    Ok(None) => spec_r matches Ok(None),
                    Err(e) => spec_r matches Err(ee) && e@ == ee,
                }
            }),
    {
        self.current_line = sat_inc(self.current_line);
        let lc = chars_of(line);
        let t = trim_chars(&lc);
        if self.is_empty_or_comment(&t) {
            return Ok(None);
        }
        if t[0] == '!' || t[0] == '$' {
            return self.parse_macro(&t);
        }
        self.parse_regular_command(&t)
    }

    /// Whether a trimmed line is blank or a comment.
    fn is_empty_or_comment(&self, t: &Vec<char>) -> (b: bool)
        ensures
            b == spec_blank_or_comment(t@),
    {
        t.len() == 0 || (t.len() >= 2 && t[0] == '/' && t[1] == '/') || (t.len() >= 2 && t[0] == '-'
            && t[1] == '-')
    }

    /// Parses a line that carries no macro marker; macro expansion routes
    /// its synthesized lines through here.
    fn parse_simple(&mut self, lc: &Vec<char>) -> (r: Result<Option<Command>, String>)
        ensures
            final(self)@ == spec_parse_simple(old(self)@, lc@).0,
            ({
                let spec_r = spec_parse_simple(old(self)@, lc@).1;
                match r {
                    Ok(Some(c)) => spec_r matches Ok(Some(cv)) && c@ == cv,
                    Ok(None) => spec_r matches Ok(None),
                    Err(e) => spec_r matches Err(ee) && e@ == ee,
                }
            }),
    {
        self.current_line = sat_inc(self.current_line);
        let t = trim_chars(lc);
        if self.is_empty_or_comment(&t) {
            return Ok(None);
        }
        self.parse_regular_command(&t)
    }

    /// Expands a macro line into register moves and a library call, wrapped
    /// as one composite command.
    fn parse_macro(&mut self, t: &Vec<char>) -> (r: Result<Option<Command>, String>)
        requires
            t@.len() >= 1,
        ensures
            final(self)@ == spec_parse_macro(old(self)@, t@).0,
            ({
                let spec_r = spec_parse_macro(old(self)@, t@).1;
                match r {
                    Ok(Some(c)) => spec_r matches Ok(Some(cv)) && c@ == cv,
                    Ok(None) => spec_r matches Ok(None),
                    Err(e) => spec_r matches Err(ee) && e@ == ee,
                }
            }),
    {
        let mut rest: Vec<char> = Vec::new();
        let mut k: usize = 1;
        while k < t.len()
            invariant
                1 <= k <= t@.len(),
                rest@ == t@.subrange(1, k as int),
            decreases t.len() - k,
        {
            rest.push(t[k]);
            k = k + 1;
            proof {
                assert(rest@ =~= t@.subrange(1, k as int));
            }
        }
        proof {
            assert(rest@ =~= t@.drop_first());
        }
        let tokens = split_ws(&rest);
        if tokens.len() == 0 {
            return Err(String::from_str("Empty macro"));
        }
        let mut args: Vec<String> = Vec::new();
        let mut k2: usize = 1;
        while k2 < tokens.len()
            invariant
                1 <= k2 <= tokens@.len(),
                args.deep_view() == tokens.deep_view().subrange(1, k2 as int),
            decreases tokens.len() - k2,
        {
            args.push(tokens[k2].clone());
            k2 = k2 + 1;
            proof {
                assert(args.deep_view() =~= tokens.deep_view().subrange(1, k2 as int));
            }
        }
        proof {
            assert(args.deep_view() =~= tokens.deep_view().drop_first());
        }
        let mut expanded_commands: Vec<Command> = Vec::new();
        match self.generate_mov_commands(&args, &mut expanded_commands) {
            Err(e) => {
                return Err(e);
            },
            Ok(_) => {
            },
        }
        match self.add_libcall_command(tokens[0].as_str(), &mut expanded_commands) {
            Err(e) => {
                return Err(e);
            },
            Ok(_) => {
            },
        }
        proof {
            crate::command::lemma_cmds_view_is_deep(expanded_commands);
        }
        let multi = Command::Multi(MultiCommand::new(expanded_commands));
        proof {
            let tokens_v = spec_split_ws(t@.drop_first());
            let (p2, movs) = spec_gen_movs(old(self)@, tokens_v.drop_first(), 0);
            let (p3, lc) = spec_add_libcall(p2, tokens_v[0]);
            assert(multi->Multi_0.commands.deep_view() =~= movs->Ok_0 + lc->Ok_0);
        }
        Ok(Some(multi))
    }

    /// Synthesizes and parses `MOV r<i> <arg>` for each argument in order,
    /// collecting the resulting commands.
    fn generate_mov_commands(&mut self, args: &Vec<String>, commands: &mut Vec<Command>) -> (r:
        Result<(), String>)
        ensures
            final(self)@ == spec_gen_movs(old(self)@, args.deep_view(), 0).0,
            ({
                let spec_r = spec_gen_movs(old(self)@, args.deep_view(), 0).1;
                match r {
                    Ok(_) => spec_r matches Ok(ms) && final(commands).deep_view() == old(
                        commands,
                    ).deep_view() + ms,
                    Err(e) => spec_r matches Err(ee) && e@ == ee,
                }
            }),
    {
        self.gen_movs_from(args, 0, commands)
    }

    /// As `generate_mov_commands`, from argument index `i` on.
    fn gen_movs_from(&mut self, args: &Vec<String>, i: usize, commands: &mut Vec<Command>) -> (r:
        Result<(), String>)
        requires
            i <= args@.len(),
        ensures
            final(self)@ == spec_gen_movs(old(self)@, args.deep_view(), i as nat).0,
            ({
                let spec_r = spec_gen_movs(old(self)@, args.deep_view(), i as nat).1;
                match r {
                    Ok(_) => spec_r matches Ok(ms) && final(commands).deep_view() == old(
                        commands,
                    ).deep_view() + ms,
                    Err(e) => spec_r matches Err(ee) && e@ == ee,
                }
            }),
        decreases args@.len() - i,
    {
        if i >= args.len() {
            proof {
                assert(commands.deep_view() =~= commands.deep_view() + Seq::<CmdV>::empty());
            }
            return Ok(());
        }
        let mut line: Vec<char> = chars_of("MOV r");
        push_decimal(i, &mut line);
        line.push(' ');
        let argc = chars_of(args[i].as_str());
        let mut k: usize = 0;
        let ghost prefix = line@;
        while k < argc.len()
            invariant
                k <= argc@.len(),
                line@ == prefix + argc@.take(k as int),
            decreases argc.len() - k,
        {
            line.push(argc[k]);
            k = k + 1;
            proof {
                assert(line@ =~= prefix + argc@.take(k as int));
            }
        }
        proof {
            assert(line@ =~= spec_mov_line(i as nat, args.deep_view()[i as int]));
        }
        match self.parse_simple(&line) {
            Err(e) => Err(e),
            Ok(None) => self.gen_movs_from(args, i + 1, commands),
            Ok(Some(command)) => {
                commands.push(command);
                let ghost mid = commands.deep_view();
                let rr = self.gen_movs_from(args, i + 1, commands);
                proof {
                    if rr is Ok {
                        let (p3, tail) = spec_gen_movs(
                            spec_parse_simple(old(self)@, line@).0,
                            args.deep_view(),
                            i as nat + 1,
                        );
                        assert(mid =~= old(commands).deep_view() + seq![mid.last()]);
                        assert(commands.deep_view() =~= old(commands).deep_view() + (seq![
                            mid.last(),
                        ] + tail->Ok_0));
                    }
                }
                rr
            },
        }
    }

    /// Synthesizes and parses the `LIBCALL <name>` line that ends a macro
    /// expansion.
    fn add_libcall_command(&mut self, macro_name: &str, commands: &mut Vec<Command>) -> (r: Result<
        (),
        String,
    >)
        ensures
            final(self)@ == spec_add_libcall(old(self)@, macro_name@).0,
            ({
                let spec_r = spec_add_libcall(old(self)@, macro_name@).1;
                match r {
                    Ok(_) => spec_r matches Ok(cs) && final(commands).deep_view() == old(
                        commands,
                    ).deep_view() + cs,
                    Err(e) => spec_r matches Err(ee) && e@ == ee,
                }
            }),
    {
        let mut line: Vec<char> = chars_of("LIBCALL ");
        let namec = chars_of(macro_name);
        let mut k: usize = 0;
        let ghost prefix = line@;
        while k < namec.len()
            invariant
                k <= namec@.len(),
                line@ == prefix + namec@.take(k as int),
            decreases namec.len() - k,
        {
            line.push(namec[k]);
            k = k + 1;
            proof {
                assert(line@ =~= prefix + namec@.take(k as int));
            }
        }
        proof {
            assert(line@ =~= "LIBCALL "@ + macro_name@);
        }
        match self.parse_simple(&line) {
            Err(e) => Err(e),
            Ok(None) => {
                proof {
                    assert(commands.deep_view() =~= commands.deep_view() + Seq::<CmdV>::empty());
                }
                Ok(())
            },
            Ok(Some(command)) => {
                let ghost cv = command@;
                commands.push(command);
                proof {
                    assert(commands.deep_view() =~= old(commands).deep_view() + seq![cv]);
                }
                Ok(())
            },
        }
    }

    /// Parses the trimmed text of a regular command line.
    fn parse_regular_command(&mut self, t: &Vec<char>) -> (r: Result<Option<Command>, String>)
        ensures
            final(self)@ == spec_parse_regular(old(self)@, t@).0,
            ({
                let spec_r = spec_parse_regular(old(self)@, t@).1;
                match r {
                    Ok(Some(c)) => spec_r matches Ok(Some(cv)) && c@ == cv,
                    Ok(None) => spec_r matches Ok(None),
                    Err(e) => spec_r matches Err(ee) && e@ == ee,
                }
            }),
    {
        let tokens = split_ws(t);
        if tokens.len() == 0 {
            return Ok(None);
        }
        // Remember the full token list, command name included.
        self.last_args = clone_strings(&tokens);
        let mut refs: Vec<&str> = Vec::new();
        let mut k: usize = 0;
        while k < tokens.len()
            invariant
                k <= tokens@.len(),
                refs.deep_view() == tokens.deep_view().take(k as int),
            decreases tokens.len() - k,
        {
            refs.push(tokens[k].as_str());
            k = k + 1;
            proof {
                assert(refs.deep_view() =~= tokens.deep_view().take(k as int));
            }
        }
        proof {
            assert(refs.deep_view() =~= tokens.deep_view());
        }
        match self.registry.create_command(tokens[0].as_str(), refs) {
            Ok(c) => Ok(Some(c)),
            Err(e) => Err(e),
        }
    }

    /// The token list of the most recently parsed regular command, if any.
    pub fn get_last_args(&self) -> (r: Option<Vec<String>>)
        ensures
            (match r {
                Some(a) => self@.last_args.len() > 0 && a.deep_view() == self@.last_args,
                None => self@.last_args.len() == 0,
            }),
    {
        if self.last_args.len() == 0 {
            None
        } else {
            Some(clone_strings(&self.last_args))
        }
    }
}

/// `x + 1`, stopping at the largest machine integer.
pub fn sat_inc(x: usize) -> (r: usize)
    ensures
        r == (if x < usize::MAX {
            x + 1
        } else {
            x as int
        }),
{
    if x < usize::MAX {
        x + 1
    } else {
        x
    }
}

} // verus!
