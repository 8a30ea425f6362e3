//! The general laws the library states of itself, proved once and for all:
//! lexing is a deterministic function of the input and yields nothing on
//! whitespace; a script of blanks and comments loads no commands and a
//! loaded empty program runs to completion without touching the context;
//! variable expansion is the identity on texts without a marker and under
//! an empty store.

use vstd::prelude::*;

use crate::command::spec_expand;
use crate::text::spec_replace;
use crate::lexer::spec_next_token;
use crate::lexer::spec_skip_ws;
use crate::lexer::spec_tokenize;
use crate::lexer::spec_tokenize_from;
use crate::lexer::TokenType;
use crate::parser::spec_blank_or_comment;
use crate::parser::spec_parse_line;
use crate::text::is_whitespace_char;
use crate::text::lemma_replace_absent;
use crate::text::lemma_trim_idem;
use crate::text::spec_lines;
use crate::text::spec_trim;
use crate::vm::prog_steps;
use crate::vm::spec_load;
use crate::vm::spec_load_lines;
use crate::vm::spec_process_line;
use crate::vm::spec_step;
use crate::vm::FrameV;
use crate::vm::VmV;

verus! {

// ---------------------------------------------------------------------------
// Lexing is total and deterministic.
// ---------------------------------------------------------------------------

/// Lexing is deterministic: the token sequence is a function of the input
/// alone, so any two results of tokenizing the same text agree.  The
/// lexer's contract pins its result to `spec_tokenize`, which this law
/// makes explicit.
pub proof fn lemma_tokenize_deterministic(
    s: Seq<char>,
    r1: Result<Seq<(TokenType, Seq<char>)>, Seq<char>>,
    r2: Result<Seq<(TokenType, Seq<char>)>, Seq<char>>,
)
    requires
        r1 == spec_tokenize(s),
        r2 == spec_tokenize(s),
    ensures
        r1 == r2,
{
}

proof fn lemma_skip_ws_all(s: Seq<char>, pos: int)
    requires
        0 <= pos <= s.len(),
        forall|i: int| 0 <= i < s.len() ==> is_whitespace_char(s[i]),
    ensures
        spec_skip_ws(s, pos) == s.len(),
    decreases s.len() - pos,
{
    if pos < s.len() {
        lemma_skip_ws_all(s, pos + 1);
    }
}

/// Whitespace-only or empty input lexes to the empty token sequence.
pub proof fn lemma_tokenize_whitespace_empty(s: Seq<char>)
    requires
        forall|i: int| 0 <= i < s.len() ==> is_whitespace_char(s[i]),
    ensures
        spec_tokenize(s) == Ok::<Seq<(TokenType, Seq<char>)>, Seq<char>>(Seq::empty()),
{
    lemma_skip_ws_all(s, 0);
    assert(spec_next_token(s, 0) == Ok::<Option<((TokenType, Seq<char>), int)>, Seq<char>>(None));
    assert(spec_tokenize_from(s, 0) == Ok::<Seq<(TokenType, Seq<char>)>, Seq<char>>(Seq::empty()));
}

// ---------------------------------------------------------------------------
// A script of blanks and comments is inert.
// ---------------------------------------------------------------------------

proof fn lemma_comment_lines_inert(s: VmV, lines: Seq<Seq<char>>, i: nat)
    requires
        forall|k: int| 0 <= k < lines.len() ==> spec_blank_or_comment(spec_trim(lines[k])),
        i <= lines.len(),
    ensures
        spec_load_lines(s, lines, i) matches Ok(s2) && s2 == (VmV { parser: s2.parser, ..s }),
    decreases lines.len() - i,
{
    if i >= lines.len() {
        assert(spec_load_lines(s, lines, i) == Ok::<VmV, Seq<char>>(s));
    } else {
        let t = spec_trim(lines[i as int]);
        if t.len() == 0 {
            lemma_comment_lines_inert(s, lines, i + 1);
        } else {
            // The line is a comment: parsing it yields no command, and only
            // the parser's line counter moves.
            lemma_trim_idem(lines[i as int]);
            assert(spec_trim(t) == t);
            let (p2, pr) = spec_parse_line(s.parser, t);
            assert(pr is Ok && pr->Ok_0 is None);
            let s1 = VmV { parser: p2, ..s };
            assert(spec_process_line(s, t) == Ok::<VmV, Seq<char>>(s1));
            lemma_comment_lines_inert(s1, lines, i + 1);
        }
    }
}

/// A script consisting only of comments and blank lines loads without
/// error and adds no commands: everything but the parser's bookkeeping is
/// exactly as before.
pub proof fn lemma_comment_script_loads_nothing(s: VmV, script: Seq<char>)
    requires
        s.current_fn is None,
        forall|k: int|
            0 <= k < spec_lines(script).len() ==> spec_blank_or_comment(
                spec_trim(spec_lines(script)[k]),
            ),
    ensures
        spec_load(s, script) matches Ok(s2) && s2.commands == s.commands && s2.ctx == s.ctx
            && s2.functions == s.functions && s2.current_fn == s.current_fn && s2.frames
            == s.frames && s2.pending == s.pending && s2.registers == s.registers,
{
    let s0 = VmV { parser: crate::parser::spec_parser_init(), ..s };
    lemma_comment_lines_inert(s0, spec_lines(script), 0);
}

/// A machine whose program is empty runs to completion at once, with the
/// context untouched: one progress step pops the scheduled frame, and the
/// next step reports that everything ran.
pub proof fn lemma_empty_program_runs_clean(s: VmV)
    requires
        s.commands.len() == 0,
        s.pending is None,
    ensures
        ({
            let r0 = VmV {
                frames: seq![FrameV::Cmds { cmds: s.commands, idx: 0 }],
                pending: None,
                ..s
            };
            let r1 = spec_step(r0).0;
            prog_steps(r0, r1, 1) && spec_step(r1).1 is DoneAll && spec_step(r1).0 == r1
                && r1.ctx == s.ctx && r1.frames.len() == 0
        }),
{
    let r0 = VmV { frames: seq![FrameV::Cmds { cmds: s.commands, idx: 0 }], pending: None, ..s };
    let (r1, step1) = spec_step(r0);
    assert(r0.frames.last() == (FrameV::Cmds { cmds: s.commands, idx: 0 }));
    assert(r1.frames =~= Seq::<FrameV>::empty());
    assert(prog_steps(r1, r1, 0));
    assert(prog_steps(r0, r1, 1));
}

// ---------------------------------------------------------------------------
// Variable expansion is the identity without markers or variables.
// ---------------------------------------------------------------------------

/// Expanding variables in a text that contains no `$` returns the text
/// unchanged, whatever the store holds.
pub proof fn lemma_expand_no_marker(ps: Seq<(Seq<char>, Seq<char>)>, s: Seq<char>)
    requires
        forall|i: int| 0 <= i < s.len() ==> s[i] != '$',
    ensures
        spec_expand(ps, s) == s,
    decreases ps.len(),
{
    if ps.len() > 0 {
        let pat = seq!['$'] + ps[0].0;
        assert(pat[0] == '$');
        lemma_replace_absent(s, pat, ps[0].1);
        assert(spec_replace(s, pat, ps[0].1) == s);
        lemma_expand_no_marker(ps.drop_first(), s);
    }
}

/// Expanding variables against an empty store returns the input unchanged.
pub proof fn lemma_expand_empty_store(s: Seq<char>)
    ensures
        spec_expand(Seq::empty(), s) == s,
{
}

} // verus!
