//! The lexer: turns script text into a flat sequence of typed tokens.
//!
//! `spec_tokenize_from` is the mathematical definition of lexing; `tokenize`
//! is proved to return exactly its value, so lexing is total and
//! deterministic by contract.

use vstd::prelude::*;
use vstd::string::*;

use crate::text::char_is_alphabetic;
use crate::text::char_is_alphanumeric;
use crate::text::char_is_whitespace;
use crate::text::char_to_string;
use crate::text::chars_eq_str;
use crate::text::chars_of;
use crate::text::is_alphabetic_char;
use crate::text::is_alphanumeric_char;
use crate::text::is_whitespace_char;
use crate::text::spec_first_idx;
use crate::text::string_of;

verus! {

/// A token representing a single lexical unit in the language.
#[derive(Debug, Clone)]
pub struct Token {
    pub token_type: TokenType,
    pub value: String,
}

/// The different kinds of token that can be recognized.
#[derive(Debug, PartialEq, Eq, Clone)]
pub enum TokenType {
    /// Built-in command keywords such as DEF or MOV.
    Command,
    /// Names and identifiers.
    Identifier,
    /// String literals.
    String,
    /// Variables starting with `$`.
    Variable,
    /// The macro marker `!`.
    Macro,
    /// Any other single character.
    Symbol(char),
    /// An explicit end-of-line token.
    EOL,
}

impl View for Token {
    type V = (TokenType, Seq<char>);

    open spec fn view(&self) -> (TokenType, Seq<char>) {
        (self.token_type, self.value@)
    }
}

impl DeepView for Token {
    type V = (TokenType, Seq<char>);

    open spec fn deep_view(&self) -> (TokenType, Seq<char>) {
        self.view()
    }
}

/// The closed set of command keywords.
pub open spec fn spec_is_keyword(w: Seq<char>) -> bool {
    ||| w == "DEF"@
    ||| w == "MOV"@
    ||| w == "EXEC"@
    ||| w == "FN"@
    ||| w == "CALL"@
    ||| w == "ENDFN"@
    ||| w == "INPUT"@
    ||| w == "LIBCALL"@
    ||| w == "IF"@
    ||| w == "ENDIF"@
    ||| w == "PRINT"@
    ||| w == "ABORT"@
}

/// The first non-whitespace position at or after `pos`.
pub open spec fn spec_skip_ws(s: Seq<char>, pos: int) -> int
    decreases s.len() - pos,
{
    if 0 <= pos < s.len() && is_whitespace_char(s[pos]) {
        spec_skip_ws(s, pos + 1)
    } else {
        pos
    }
}

pub proof fn lemma_skip_ws_bounds(s: Seq<char>, pos: int)
    requires
        0 <= pos <= s.len(),
    ensures
        pos <= spec_skip_ws(s, pos) <= s.len(),
        spec_skip_ws(s, pos) < s.len() ==> !is_whitespace_char(s[spec_skip_ws(s, pos)]),
    decreases s.len() - pos,
{
    if 0 <= pos < s.len() && is_whitespace_char(s[pos]) {
        lemma_skip_ws_bounds(s, pos + 1);
    }
}

/// The end of the run of identifier characters (alphanumeric or `_`)
/// starting at `pos`.
pub open spec fn spec_word_end(s: Seq<char>, pos: int) -> int
    decreases s.len() - pos,
{
    if 0 <= pos < s.len() && (is_alphanumeric_char(s[pos]) || s[pos] == '_') {
        spec_word_end(s, pos + 1)
    } else {
        pos
    }
}

pub proof fn lemma_word_end_bounds(s: Seq<char>, pos: int)
    requires
        0 <= pos <= s.len(),
    ensures
        pos <= spec_word_end(s, pos) <= s.len(),
    decreases s.len() - pos,
{
    if 0 <= pos < s.len() && (is_alphanumeric_char(s[pos]) || s[pos] == '_') {
        lemma_word_end_bounds(s, pos + 1);
    }
}

pub proof fn lemma_first_idx_le(s: Seq<char>, c: char)
    ensures
        spec_first_idx(s, c) <= s.len(),
    decreases s.len(),
{
    if s.len() > 0 && s[0] != c {
        lemma_first_idx_le(s.drop_first(), c);
    }
}

/// The position of the next `\n` at or after `p`, or the end of input.
pub open spec fn spec_line_end(s: Seq<char>, p: int) -> int {
    p + spec_first_idx(s.skip(p), '\n')
}

/// What reading a string literal from `pos` (just after the opening quote)
/// yields: the accumulated value and the position after the closing quote,
/// or a lexical error.
pub open spec fn spec_read_string(s: Seq<char>, pos: int, acc: Seq<char>) -> Result<
    (Seq<char>, int),
    Seq<char>,
>
    decreases s.len() - pos,
{
    if !(0 <= pos < s.len()) {
        Err("Unterminated string literal"@)
    } else if s[pos] == '"' {
        Ok((acc, pos + 1))
    } else if s[pos] == '\\' {
        if pos + 1 < s.len() {
            let e = s[pos + 1];
            if e == 'n' {
                spec_read_string(s, pos + 2, acc.push('\n'))
            } else if e == 't' {
                spec_read_string(s, pos + 2, acc.push('\t'))
            } else if e == 'r' {
                spec_read_string(s, pos + 2, acc.push('\r'))
            } else if e == '"' {
                spec_read_string(s, pos + 2, acc.push('"'))
            } else if e == '\\' {
                spec_read_string(s, pos + 2, acc.push('\\'))
            } else {
                Err("Invalid escape sequence: \\"@ + seq![e])
            }
        } else {
            // The backslash is consumed and the input ends.
            Err("Unterminated string literal"@)
        }
    } else {
        spec_read_string(s, pos + 1, acc.push(s[pos]))
    }
}

pub proof fn lemma_read_string_bounds(s: Seq<char>, pos: int, acc: Seq<char>)
    requires
        0 <= pos,
    ensures
        spec_read_string(s, pos, acc) matches Ok(r) ==> pos < r.1 <= s.len(),
    decreases s.len() - pos,
{
    if 0 <= pos < s.len() {
        if s[pos] == '"' {
        } else if s[pos] == '\\' {
            if pos + 1 < s.len() {
                let e = s[pos + 1];
                if e == 'n' {
                    lemma_read_string_bounds(s, pos + 2, acc.push('\n'));
                } else if e == 't' {
                    lemma_read_string_bounds(s, pos + 2, acc.push('\t'));
                } else if e == 'r' {
                    lemma_read_string_bounds(s, pos + 2, acc.push('\r'));
                } else if e == '"' {
                    lemma_read_string_bounds(s, pos + 2, acc.push('"'));
                } else if e == '\\' {
                    lemma_read_string_bounds(s, pos + 2, acc.push('\\'));
                }
            }
        } else {
            lemma_read_string_bounds(s, pos + 1, acc.push(s[pos]));
        }
    }
}

#[via_fn]
proof fn spec_next_token_dec(s: Seq<char>, pos: int) {
    if 0 <= pos <= s.len() {
        lemma_skip_ws_bounds(s, pos);
        let p = spec_skip_ws(s, pos);
        if p < s.len() {
            lemma_first_idx_le(s.skip(p), '\n');
            if s[p] == '/' && p + 1 < s.len() && s[p + 1] == '/' {
                assert(s.skip(p)[0] == s[p]);
                assert(spec_first_idx(s.skip(p), '\n') >= 1);
            }
            if s[p] == '-' && p + 1 < s.len() && s[p + 1] == '-' {
                assert(s.skip(p)[0] == s[p]);
                assert(spec_first_idx(s.skip(p), '\n') >= 1);
            }
        }
    }
}

/// What the lexer yields at position `pos`: the next token and the position
/// after it, `None` at the end of input, or a lexical error.  Comments run
/// to the end of their line and yield nothing.
pub open spec fn spec_next_token(s: Seq<char>, pos: int) -> Result<
    Option<((TokenType, Seq<char>), int)>,
    Seq<char>,
>
    decreases s.len() - pos,
        via spec_next_token_dec
{
    if !(0 <= pos <= s.len()) {
        Ok(None)
    } else {
        let p = spec_skip_ws(s, pos);
        if p >= s.len() {
            Ok(None)
        } else {
            let c = s[p];
            if c == '/' && p + 1 < s.len() && s[p + 1] == '/' {
                spec_next_token(s, spec_line_end(s, p))
            } else if c == '-' && p + 1 < s.len() && s[p + 1] == '-' {
                spec_next_token(s, spec_line_end(s, p))
            } else if c == '"' {
                match spec_read_string(s, p + 1, Seq::empty()) {
                    Ok((v, np)) => Ok(Some(((TokenType::String, v), np))),
                    Err(e) => Err(e),
                }
            } else if c == '$' {
                let e = spec_word_end(s, p + 1);
                Ok(Some(((TokenType::Variable, seq!['$'] + s.subrange(p + 1, e)), e)))
            } else if c == '!' {
                Ok(Some(((TokenType::Macro, seq!['!']), p + 1)))
            } else if is_alphabetic_char(c) {
                let e = spec_word_end(s, p);
                let w = s.subrange(p, e);
                let t = if spec_is_keyword(w) {
                    TokenType::Command
                } else {
                    TokenType::Identifier
                };
                Ok(Some(((t, w), if e == p { p + 1 } else { e })))
            } else if c == '\n' {
                Ok(Some(((TokenType::EOL, seq!['\n']), p + 1)))
            } else {
                Ok(Some(((TokenType::Symbol(c), seq![c]), p + 1)))
            }
        }
    }
}

pub proof fn lemma_next_token_bounds(s: Seq<char>, pos: int)
    requires
        0 <= pos <= s.len(),
    ensures
        spec_next_token(s, pos) matches Ok(Some(r)) ==> pos < r.1 <= s.len(),
    decreases s.len() - pos,
{
    lemma_skip_ws_bounds(s, pos);
    let p = spec_skip_ws(s, pos);
    if p < s.len() {
        let c = s[p];
        lemma_first_idx_le(s.skip(p), '\n');
        if (c == '/' && p + 1 < s.len() && s[p + 1] == '/') || (c == '-' && p + 1 < s.len() && s[p
            + 1] == '-') {
            assert(s.skip(p)[0] == s[p]);
            assert(spec_first_idx(s.skip(p), '\n') >= 1);
            lemma_next_token_bounds(s, spec_line_end(s, p));
        } else if c == '"' {
            lemma_read_string_bounds(s, p + 1, Seq::empty());
        } else if c == '$' {
            lemma_word_end_bounds(s, p + 1);
        } else if is_alphabetic_char(c) {
            lemma_word_end_bounds(s, p);
        }
    }
}

#[via_fn]
proof fn spec_tokenize_from_dec(s: Seq<char>, pos: int) {
    if 0 <= pos <= s.len() {
        lemma_next_token_bounds(s, pos);
    }
}

/// The token sequence of `s` from position `pos` on, or the first lexical
/// error.
pub open spec fn spec_tokenize_from(s: Seq<char>, pos: int) -> Result<
    Seq<(TokenType, Seq<char>)>,
    Seq<char>,
>
    decreases s.len() - pos,
        via spec_tokenize_from_dec
{
    if !(0 <= pos <= s.len()) {
        Ok(Seq::empty())
    } else {
        match spec_next_token(s, pos) {
            Err(e) => Err(e),
            Ok(None) => Ok(Seq::empty()),
            Ok(Some((t, np))) => match spec_tokenize_from(s, np) {
                Err(e) => Err(e),
                Ok(rest) => Ok(seq![t] + rest),
            },
        }
    }
}

/// The token sequence of a whole input.
pub open spec fn spec_tokenize(s: Seq<char>) -> Result<Seq<(TokenType, Seq<char>)>, Seq<char>> {
    spec_tokenize_from(s, 0)
}

pub struct Lexer {
    input: Vec<char>,
    position: usize,
    line: usize,
    column: usize,
}

fn sat_inc(x: usize) -> (r: usize) {
    if x < usize::MAX {
        x + 1
    } else {
        x
    }
}

impl Lexer {
    pub closed spec fn wf(&self) -> bool {
        self.position <= self.input@.len()
    }

    pub closed spec fn input_view(&self) -> Seq<char> {
        self.input@
    }

    pub closed spec fn pos_view(&self) -> int {
        self.position as int
    }

    /// Creates a new lexer over the given input string.
    pub fn new(input: &str) -> (r: Lexer)
        ensures
            r.wf(),
            r.input_view() == input@,
            r.pos_view() == 0,
    {
        Lexer { input: chars_of(input), position: 0, line: 1, column: 1 }
    }

    /// Returns the next character without advancing the position.
    fn peek(&self) -> (r: Option<char>)
        requires
            self.wf(),
        ensures
            r == (if self.pos_view() < self.input_view().len() {
                Some(self.input_view()[self.pos_view()])
            } else {
                None::<char>
            }),
    {
        if self.position < self.input.len() {
            Some(self.input[self.position])
        } else {
            None
        }
    }

    /// Advances the position and returns the character that was there.
    fn advance(&mut self) -> (r: Option<char>)
        requires
            old(self).wf(),
        ensures
            final(self).wf(),
            final(self).input_view() == old(self).input_view(),
            old(self).pos_view() < old(self).input_view().len() ==> (final(self).pos_view() == old(
                self,
            ).pos_view() + 1 && r == Some(old(self).input_view()[old(self).pos_view()])),
            old(self).pos_view() >= old(self).input_view().len() ==> (final(self).pos_view() == old(
                self,
            ).pos_view() && r is None),
    {
        if self.position < self.input.len() {
            let c = self.input[self.position];
            self.position = self.position + 1;
            self.column = sat_inc(self.column);
            Some(c)
        } else {
            None
        }
    }

    /// Skips whitespace characters, updating line and column bookkeeping.
    #[verifier::loop_isolation(false)]
    fn skip_whitespace(&mut self)
        requires
            old(self).wf(),
        ensures
            final(self).wf(),
            final(self).input_view() == old(self).input_view(),
            final(self).pos_view() == spec_skip_ws(old(self).input_view(), old(self).pos_view()),
    {
        loop
            invariant
                self.wf(),
                self.input_view() == old(self).input_view(),
                spec_skip_ws(self.input_view(), self.pos_view()) == spec_skip_ws(
                    old(self).input_view(),
                    old(self).pos_view(),
                ),
            decreases self.input@.len() - self.position,
        {
            match self.peek() {
                None => {
                    return ;
                },
                Some(c) => {
                    if !char_is_whitespace(c) {
                        return ;
                    }
                    if c == '\n' {
                        self.line = sat_inc(self.line);
                        self.column = 1;
                    }
                    self.advance();
                },
            }
        }
    }

    /// Reads a string literal, handling escape sequences.  On entry the
    /// current character is the opening quote.
    #[verifier::loop_isolation(false)]
    fn read_string(&mut self) -> (r: Result<Token, String>)
        requires
            old(self).wf(),
            old(self).pos_view() < old(self).input_view().len(),
            old(self).input_view()[old(self).pos_view()] == '"',
        ensures
            final(self).wf(),
            final(self).input_view() == old(self).input_view(),
            ({
                let spec_r = spec_read_string(
                    old(self).input_view(),
                    old(self).pos_view() + 1,
                    Seq::empty(),
                );
                match r {
                    Ok(tok) => spec_r matches Ok(rr) && tok@ == (TokenType::String, rr.0)
                        && final(self).pos_view() == rr.1,
                    Err(e) => spec_r matches Err(ee) && e@ == ee,
                }
            }),
    {
        let ghost s = self.input@;
        let mut value: Vec<char> = Vec::new();
        self.advance();  // Skip the opening quote.
        loop
            invariant
                self.wf(),
                self.input@ == s,
                spec_read_string(s, old(self).pos_view() + 1, Seq::empty()) == spec_read_string(
                    s,
                    self.pos_view(),
                    value@,
                ),
            decreases s.len() - self.position,
        {
            match self.peek() {
                None => {
                    return Err(String::from_str("Unterminated string literal"));
                },
                Some(c) => {
                    if c == '"' {
                        self.advance();
                        let sv = string_of(&value);
                        return Ok(Token { token_type: TokenType::String, value: sv });
                    } else if c == '\\' {
                        self.advance();
                        match self.advance() {
                            None => {
                                // The input ended right after the backslash.
                            },
                            Some(next) => {
                                if next == 'n' {
                                    value.push('\n');
                                } else if next == 't' {
                                    value.push('\t');
                                } else if next == 'r' {
                                    value.push('\r');
                                } else if next == '"' {
                                    value.push('"');
                                } else if next == '\\' {
                                    value.push('\\');
                                } else {
                                    let mut e = String::from_str("Invalid escape sequence: \\");
                                    let nc = char_to_string(next);
                                    e.append(nc.as_str());
                                    return Err(e);
                                }
                            },
                        }
                    } else {
                        value.push(c);
                        self.advance();
                    }
                },
            }
        }
    }

    /// Checks whether a word is one of the command keywords.
    fn is_command(&self, value: &Vec<char>) -> (b: bool)
        ensures
            b == spec_is_keyword(value@),
    {
        chars_eq_str(value, "DEF") || chars_eq_str(value, "MOV") || chars_eq_str(value, "EXEC")
            || chars_eq_str(value, "FN") || chars_eq_str(value, "CALL") || chars_eq_str(
            value,
            "ENDFN",
        ) || chars_eq_str(value, "INPUT") || chars_eq_str(value, "LIBCALL") || chars_eq_str(
            value,
            "IF",
        ) || chars_eq_str(value, "ENDIF") || chars_eq_str(value, "PRINT") || chars_eq_str(
            value,
            "ABORT",
        )
    }

    /// Reads an identifier or command keyword token.
    fn read_identifier_or_command(&mut self) -> (r: Token)
        requires
            old(self).wf(),
        ensures
            final(self).wf(),
            final(self).input_view() == old(self).input_view(),
            final(self).pos_view() == spec_word_end(old(self).input_view(), old(self).pos_view()),
            ({
                let w = old(self).input_view().subrange(
                    old(self).pos_view(),
                    spec_word_end(old(self).input_view(), old(self).pos_view()),
                );
                r@ == ((
                    if spec_is_keyword(w) {
                        TokenType::Command
                    } else {
                        TokenType::Identifier
                    },
                    w,
                ))
            }),
    {
        let ghost s = self.input@;
        let ghost p0 = self.pos_view();
        let mut value: Vec<char> = Vec::new();
        proof {
            assert(value@ =~= s.subrange(p0, p0));
        }
        loop
            invariant
                self.wf(),
                self.input@ == s,
                0 <= p0 <= self.pos_view() <= s.len(),
                value@ == s.subrange(p0, self.pos_view()),
                spec_word_end(s, p0) == spec_word_end(s, self.pos_view()),
            ensures
                self.wf(),
                self.input@ == s,
                value@ == s.subrange(p0, self.pos_view()),
                self.pos_view() == spec_word_end(s, p0),
            decreases s.len() - self.position,
        {
            match self.peek() {
                None => {
                    break ;
                },
                Some(c) => {
                    if !char_is_alphanumeric(c) && c != '_' {
                        break ;
                    }
                    value.push(c);
                    self.advance();
                    proof {
                        assert(value@ =~= s.subrange(p0, self.pos_view()));
                    }
                },
            }
        }
        let keyword = self.is_command(&value);
        let token_type = if keyword {
            TokenType::Command
        } else {
            TokenType::Identifier
        };
        let sv = string_of(&value);
        Token { token_type, value: sv }
    }

    /// Reads a variable token (starting with `$`).  On entry the current
    /// character is the `$`.
    fn read_variable(&mut self) -> (r: Token)
        requires
            old(self).wf(),
            old(self).pos_view() < old(self).input_view().len(),
        ensures
            final(self).wf(),
            final(self).input_view() == old(self).input_view(),
            final(self).pos_view() == spec_word_end(
                old(self).input_view(),
                old(self).pos_view() + 1,
            ),
            (r@ == ((
                TokenType::Variable,
                seq!['$'] + old(self).input_view().subrange(
                    old(self).pos_view() + 1,
                    spec_word_end(old(self).input_view(), old(self).pos_view() + 1),
                ),
            ))),
    {
        let ghost s = self.input@;
        let ghost p0 = self.pos_view();
        self.advance();  // Skip the $.
        let mut value: Vec<char> = Vec::new();
        proof {
            assert(value@ =~= s.subrange(p0 + 1, p0 + 1));
        }
        loop
            invariant
                self.wf(),
                self.input@ == s,
                0 <= p0,
                p0 + 1 <= self.pos_view() <= s.len(),
                value@ == s.subrange(p0 + 1, self.pos_view()),
                spec_word_end(s, p0 + 1) == spec_word_end(s, self.pos_view()),
            ensures
                self.wf(),
                self.input@ == s,
                value@ == s.subrange(p0 + 1, self.pos_view()),
                self.pos_view() == spec_word_end(s, p0 + 1),
            decreases s.len() - self.position,
        {
            match self.peek() {
                None => {
                    break ;
                },
                Some(c) => {
                    if !char_is_alphanumeric(c) && c != '_' {
                        break ;
                    }
                    value.push(c);
                    self.advance();
                    proof {
                        assert(value@ =~= s.subrange(p0 + 1, self.pos_view()));
                    }
                },
            }
        }
        let mut sv = String::from_str("$");
        let rest = string_of(&value);
        sv.append(rest.as_str());
        proof {
            reveal_strlit("$");
            assert(sv@ =~= seq!['$'] + value@);
        }
        Token { token_type: TokenType::Variable, value: sv }
    }

    /// Returns the next token, or `None` at the end of input.  Comments are
    /// consumed and yield nothing.
    fn next_token(&mut self) -> (r: Result<Option<Token>, String>)
        requires
            old(self).wf(),
        ensures
            final(self).wf(),
            final(self).input_view() == old(self).input_view(),
            ({
                let spec_r = spec_next_token(old(self).input_view(), old(self).pos_view());
                match r {
                    Ok(Some(tok)) => spec_r matches Ok(Some(rr)) && tok@ == rr.0
                        && final(self).pos_view() == rr.1,
                    Ok(None) => spec_r matches Ok(None),
                    Err(e) => spec_r matches Err(ee) && e@ == ee,
                }
            }),
        decreases old(self).input@.len() - old(self).position,
    {
        proof {
            lemma_skip_ws_bounds(self.input@, self.pos_view());
        }
        self.skip_whitespace();
        let ghost s = self.input@;
        let ghost p = self.pos_view();
        let c = match self.peek() {
            None => {
                return Ok(None);
            },
            Some(c) => c,
        };
        let n = self.input.len();
        if c == '/' && self.position < n - 1 && self.input[self.position + 1] == '/' {
            // Consume the comment up to the end of the line.
            self.skip_comment();
            proof {
                assert(s.skip(p)[0] == s[p]);
            }
            return self.next_token();
        }
        if c == '-' && self.position < n - 1 && self.input[self.position + 1] == '-' {
            self.skip_comment();
            proof {
                assert(s.skip(p)[0] == s[p]);
            }
            return self.next_token();
        }
        if c == '"' {
            return match self.read_string() {
                Ok(t) => Ok(Some(t)),
                Err(e) => Err(e),
            };
        }
        if c == '$' {
            return Ok(Some(self.read_variable()));
        }
        if c == '!' {
            self.advance();
            let sv = char_to_string('!');
            return Ok(Some(Token { token_type: TokenType::Macro, value: sv }));
        }
        if char_is_alphabetic(c) {
            proof {
                lemma_word_end_bounds(s, p + 1);
                assert(spec_word_end(s, p) == spec_word_end(s, p + 1));
            }
            let t = self.read_identifier_or_command();
            return Ok(Some(t));
        }
        if c == '\n' {
            self.advance();
            self.line = sat_inc(self.line);
            self.column = 1;
            let sv = char_to_string('\n');
            return Ok(Some(Token { token_type: TokenType::EOL, value: sv }));
        }
        self.advance();
        let sv = char_to_string(c);
        Ok(Some(Token { token_type: TokenType::Symbol(c), value: sv }))
    }

    /// Consumes characters up to (but not including) the next newline.
    fn skip_comment(&mut self)
        requires
            old(self).wf(),
            old(self).pos_view() < old(self).input_view().len(),
            old(self).input_view()[old(self).pos_view()] != '\n',
        ensures
            final(self).wf(),
            final(self).input_view() == old(self).input_view(),
            final(self).pos_view() == spec_line_end(old(self).input_view(), old(self).pos_view()),
            final(self).pos_view() > old(self).pos_view(),
    {
        let ghost s = self.input@;
        let ghost p0 = self.pos_view();
        proof {
            lemma_first_idx_le(s.skip(p0), '\n');
            assert(s.skip(p0).skip(0) =~= s.skip(p0));
        }
        loop
            invariant
                self.wf(),
                self.input@ == s,
                0 <= p0 <= self.pos_view() <= s.len(),
                spec_line_end(s, p0) == self.pos_view() + spec_first_idx(
                    s.skip(self.pos_view()),
                    '\n',
                ),
                forall|k: int| p0 <= k < self.pos_view() ==> s[k] != '\n',
            ensures
                self.wf(),
                self.input@ == s,
                p0 <= self.pos_view() <= s.len(),
                self.pos_view() == spec_line_end(s, p0),
            decreases s.len() - self.position,
        {
            match self.peek() {
                None => {
                    proof {
                        assert(s.skip(self.pos_view()) =~= Seq::<char>::empty());
                    }
                    break ;
                },
                Some(c) => {
                    if c == '\n' {
                        proof {
                            assert(s.skip(self.pos_view())[0] == '\n');
                        }
                        break ;
                    }
                    proof {
                        assert(s.skip(self.pos_view())[0] == s[self.pos_view()]);
                        assert(s.skip(self.pos_view()).drop_first() =~= s.skip(
                            self.pos_view() + 1,
                        ));
                    }
                    self.advance();
                },
            }
        }
    }

    /// Tokenizes the remaining input into a vector of tokens, or returns the
    /// first lexical error.
    #[verifier::loop_isolation(false)]
    pub fn tokenize(&mut self) -> (r: Result<Vec<Token>, String>)
        requires
            old(self).wf(),
        ensures
            final(self).wf(),
            ({
                let spec_r = spec_tokenize_from(old(self).input_view(), old(self).pos_view());
                match r {
                    Ok(toks) => spec_r matches Ok(ts) && toks.deep_view() == ts,
                    Err(e) => spec_r matches Err(ee) && e@ == ee,
                }
            }),
    {
        let ghost s = self.input@;
        let ghost p0 = self.pos_view();
        let mut tokens: Vec<Token> = Vec::new();
        proof {
            assert(tokens.deep_view() =~= Seq::<(TokenType, Seq<char>)>::empty());
            if spec_tokenize_from(s, p0) is Ok {
                assert(tokens.deep_view() + spec_tokenize_from(s, p0)->Ok_0 =~= spec_tokenize_from(
                    s,
                    p0,
                )->Ok_0);
            }
        }
        loop
            invariant
                self.wf(),
                self.input@ == s,
                ({
                    let whole = spec_tokenize_from(s, p0);
                    let rest = spec_tokenize_from(s, self.pos_view());
                    match whole {
                        Ok(ts) => rest matches Ok(rs) && ts == tokens.deep_view() + rs,
                        Err(e) => rest matches Err(re) && e == re,
                    }
                }),
            decreases s.len() - self.position,
        {
            proof {
                lemma_next_token_bounds(s, self.pos_view());
            }
            let ghost pos_before = self.pos_view();
            match self.next_token() {
                Err(e) => {
                    return Err(e);
                },
                Ok(None) => {
                    proof {
                        let whole = spec_tokenize_from(s, p0);
                        assert(spec_tokenize_from(s, pos_before) == Ok::<
                            Seq<(TokenType, Seq<char>)>,
                            Seq<char>,
                        >(Seq::empty()));
                        if whole is Ok {
                            assert(whole->Ok_0 =~= tokens.deep_view());
                        }
                    }
                    return Ok(tokens);
                },
                Ok(Some(t)) => {
                    tokens.push(t);
                    proof {
                        let whole = spec_tokenize_from(s, p0);
                        if whole is Ok {
                            let rest = spec_tokenize_from(s, pos_before);
                            let newrest = spec_tokenize_from(s, self.pos_view());
                            assert(rest matches Ok(rs) && newrest matches Ok(nrs) && rs == seq![
                                t@,
                            ] + nrs);
                            assert(tokens.deep_view() =~= tokens.deep_view().drop_last() + seq![
                                t@,
                            ]);
                            assert(whole->Ok_0 =~= tokens.deep_view() + newrest->Ok_0);
                        }
                    }
                },
            }
        }
    }
}

} // verus!
