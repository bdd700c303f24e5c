//! Splitting source text into tokens.

use vstd::prelude::*;
use vstd::string::StrSliceExecFns;

verus! {

/// Why source text could not be parsed.
#[derive(Debug, Clone, Copy, PartialEq, Eq, Structural)]
pub enum SyntaxError {
    UnexpectedChar,
    InvalidNumber,
    UnexpectedEnd,
    UnexpectedToken,
    NameNotFound,
    ExpectedEnd,
}

/// Symbols and keywords.
#[derive(Debug, Clone, Copy, PartialEq, Eq, Structural)]
pub enum Sym {
    Eq,
    Colon,
    Comma,
    Semi,
    Dot,
    VertPipe,
    LParen,
    RParen,
    LBracket,
    RBracket,
    LBrace,
    RBrace,
    LAngle,
    RAngle,
    WideArrow,
    KwLet,
    KwIn,
    KwMatch,
    KwOf,
    KwAs,
    KwAlias,
    KwMu,
    KwFold,
    KwUnfold,
    KwBoxTy,
    KwBoxOp,
}

#[derive(Debug)]
pub enum Token {
    Sym(Sym),
    Number(u64),
    Ident(String),
}

/// What a token stands for, with an identifier as its characters.
pub enum TokenView {
    Sym(Sym),
    Number(u64),
    Ident(Seq<char>),
}

impl View for Token {
    type V = TokenView;

    open spec fn view(&self) -> TokenView {
        match self {
            Token::Sym(s) => TokenView::Sym(*s),
            Token::Number(n) => TokenView::Number(*n),
            Token::Ident(s) => TokenView::Ident(s@),
        }
    }
}

/// The characters of `s` in order.
fn chars_of(s: &str) -> (r: Vec<char>)
    ensures
        r@ == s@,
{
    let n = s.unicode_len();
    let mut out: Vec<char> = Vec::new();
    let mut i: usize = 0;
    while i < n
        invariant
            n as nat == s@.len(),
            i <= n,
            out@ == s@.subrange(0, i as int),
        decreases n - i,
    {
        out.push(s.get_char(i));
        i = i + 1;
        assert(out@ =~= s@.subrange(0, i as int));
    }
    assert(s@.subrange(0, n as int) =~= s@);
    out
}

/// Relies on collecting characters into a `String`: the text of `cs`.
#[verifier::external_body]
fn string_of(cs: Vec<char>) -> (r: String)
    ensures
        r@ == cs@,
{
    cs.into_iter().collect()
}

/// The characters `src[start..end]`.
fn chars_between(src: &Vec<char>, start: usize, end: usize) -> (r: Vec<char>)
    requires
        start <= end <= src@.len(),
    ensures
        r@ == src@.subrange(start as int, end as int),
{
    let mut out: Vec<char> = Vec::new();
    let mut i = start;
    while i < end
        invariant
            start <= i <= end <= src@.len(),
            out@ == src@.subrange(start as int, i as int),
        decreases end - i,
    {
        out.push(src[i]);
        i = i + 1;
        assert(out@ =~= src@.subrange(start as int, i as int));
    }
    out
}

// ----- Lexical rules -----

pub open spec fn is_alpha_spec(c: char) -> bool {
    ('a' <= c && c <= 'z') || ('A' <= c && c <= 'Z')
}

pub open spec fn is_digit_spec(c: char) -> bool {
    '0' <= c && c <= '9'
}

/// Characters that may continue an identifier: `[A-Za-z0-9_]`.
pub open spec fn is_ident_char_spec(c: char) -> bool {
    is_alpha_spec(c) || is_digit_spec(c) || c == '_'
}

/// The value of a decimal digit.
pub open spec fn digit_spec(c: char) -> nat {
    if c == '1' {
        1
    } else if c == '2' {
        2
    } else if c == '3' {
        3
    } else if c == '4' {
        4
    } else if c == '5' {
        5
    } else if c == '6' {
        6
    } else if c == '7' {
        7
    } else if c == '8' {
        8
    } else if c == '9' {
        9
    } else {
        0
    }
}

/// The decimal value of a string of digits.
pub open spec fn dec_value(s: Seq<char>) -> nat
    decreases s.len(),
{
    if s.len() == 0 {
        0
    } else {
        dec_value(s.drop_last()) * 10 + digit_spec(s.last())
    }
}

/// The one-character symbols, and `µ`.
pub open spec fn sym_spec(c: char) -> Option<Sym> {
    if c == '=' {
        Some(Sym::Eq)
    } else if c == ':' {
        Some(Sym::Colon)
    } else if c == ',' {
        Some(Sym::Comma)
    } else if c == ';' {
        Some(Sym::Semi)
    } else if c == '.' {
        Some(Sym::Dot)
    } else if c == '|' {
        Some(Sym::VertPipe)
    } else if c == '(' {
        Some(Sym::LParen)
    } else if c == ')' {
        Some(Sym::RParen)
    } else if c == '[' {
        Some(Sym::LBracket)
    } else if c == ']' {
        Some(Sym::RBracket)
    } else if c == '{' {
        Some(Sym::LBrace)
    } else if c == '}' {
        Some(Sym::RBrace)
    } else if c == '<' {
        Some(Sym::LAngle)
    } else if c == '>' {
        Some(Sym::RAngle)
    } else if c == '\u{b5}' {
        Some(Sym::KwMu)
    } else {
        None
    }
}

/// The keywords.
pub open spec fn keyword_spec(w: Seq<char>) -> Option<Sym> {
    if w == "let"@ {
        Some(Sym::KwLet)
    } else if w == "in"@ {
        Some(Sym::KwIn)
    } else if w == "match"@ {
        Some(Sym::KwMatch)
    } else if w == "of"@ {
        Some(Sym::KwOf)
    } else if w == "as"@ {
        Some(Sym::KwAs)
    } else if w == "alias"@ {
        Some(Sym::KwAlias)
    } else if w == "fold"@ {
        Some(Sym::KwFold)
    } else if w == "unfold"@ {
        Some(Sym::KwUnfold)
    } else if w == "Box"@ {
        Some(Sym::KwBoxTy)
    } else if w == "box"@ {
        Some(Sym::KwBoxOp)
    } else {
        None
    }
}

/// The end of a `--` comment whose text continues at `j`: the next newline,
/// or the end of the source.
pub open spec fn comment_end(src: Seq<char>, j: int) -> int
    decreases src.len() - j,
{
    if 0 <= j < src.len() && src[j] != '\n' {
        comment_end(src, j + 1)
    } else {
        j
    }
}

/// The first position at or after `i` that is not whitespace or a comment.
pub open spec fn skip_ws_spec(src: Seq<char>, i: int) -> int
    decreases src.len() - i,
{
    if i < 0 || i >= src.len() {
        i
    } else if src[i] == ' ' || src[i] == '\t' || src[i] == '\n' || src[i] == '\r' {
        skip_ws_spec(src, i + 1)
    } else if src[i] == '-' && i + 1 < src.len() && src[i + 1] == '-' {
        let k = comment_end(src, i + 2);
        if i < k <= src.len() {
            skip_ws_spec(src, k)
        } else {
            i
        }
    } else {
        i
    }
}

/// The end of the run of characters at `j` that satisfy `f`.
pub open spec fn digits_end(src: Seq<char>, j: int) -> int
    decreases src.len() - j,
{
    if 0 <= j < src.len() && is_digit_spec(src[j]) {
        digits_end(src, j + 1)
    } else {
        j
    }
}

pub open spec fn ident_end(src: Seq<char>, j: int) -> int
    decreases src.len() - j,
{
    if 0 <= j < src.len() && is_ident_char_spec(src[j]) {
        ident_end(src, j + 1)
    } else {
        j
    }
}

/// The token that starts after the whitespace at `i`, with where it ends;
/// `None` at the end of the text. `=>` is one token; a number is the decimal
/// value of its digits and must fit in a `u64`; an identifier
/// `[A-Za-z_][A-Za-z0-9_]*` is a keyword where it spells one.
pub open spec fn next_token_spec(src: Seq<char>, i: int) -> Result<Option<(TokenView, int)>, SyntaxError> {
    let s = skip_ws_spec(src, i);
    if s < 0 || s >= src.len() {
        Ok(None)
    } else {
        let c = src[s];
        if c == '=' && s + 1 < src.len() && src[s + 1] == '>' {
            Ok(Some((TokenView::Sym(Sym::WideArrow), s + 2)))
        } else if sym_spec(c) is Some {
            Ok(Some((TokenView::Sym(sym_spec(c).unwrap()), s + 1)))
        } else if is_digit_spec(c) {
            let e = digits_end(src, s + 1);
            let v = dec_value(src.subrange(s, e));
            if v <= u64::MAX {
                Ok(Some((TokenView::Number(v as u64), e)))
            } else {
                Err(SyntaxError::InvalidNumber)
            }
        } else if is_alpha_spec(c) || c == '_' {
            let e = ident_end(src, s + 1);
            let w = src.subrange(s, e);
            match keyword_spec(w) {
                Some(k) => Ok(Some((TokenView::Sym(k), e))),
                None => Ok(Some((TokenView::Ident(w), e))),
            }
        } else {
            Err(SyntaxError::UnexpectedChar)
        }
    }
}

/// The tokens of the text from `i` on, or the first error.
pub open spec fn lex_spec(src: Seq<char>, i: int) -> Result<Seq<TokenView>, SyntaxError>
    decreases src.len() - i,
{
    match next_token_spec(src, i) {
        Err(x) => Err(x),
        Ok(None) => Ok(Seq::empty()),
        Ok(Some((t, e))) => if i < e <= src.len() {
            match lex_spec(src, e) {
                Ok(rest) => Ok(seq![t] + rest),
                Err(x) => Err(x),
            }
        } else {
            Err(SyntaxError::UnexpectedEnd)
        },
    }
}

proof fn lemma_comment_end(src: Seq<char>, j: int)
    requires
        0 <= j <= src.len(),
    ensures
        j <= comment_end(src, j) <= src.len(),
    decreases src.len() - j,
{
    if j < src.len() && src[j] != '\n' {
        lemma_comment_end(src, j + 1);
    }
}

proof fn lemma_skip_ws(src: Seq<char>, i: int)
    requires
        0 <= i <= src.len(),
    ensures
        i <= skip_ws_spec(src, i) <= src.len(),
    decreases src.len() - i,
{
    if i < src.len() {
        if src[i] == ' ' || src[i] == '\t' || src[i] == '\n' || src[i] == '\r' {
            lemma_skip_ws(src, i + 1);
        } else if src[i] == '-' && i + 1 < src.len() && src[i + 1] == '-' {
            lemma_comment_end(src, i + 2);
            lemma_skip_ws(src, comment_end(src, i + 2));
        }
    }
}

/// The value of a decimal digit.
fn digit_value(c: char) -> (r: u64)
    ensures
        r <= 9,
        r == digit_spec(c),
{
    if c == '1' {
        1
    } else if c == '2' {
        2
    } else if c == '3' {
        3
    } else if c == '4' {
        4
    } else if c == '5' {
        5
    } else if c == '6' {
        6
    } else if c == '7' {
        7
    } else if c == '8' {
        8
    } else if c == '9' {
        9
    } else {
        0
    }
}

/// The keyword spelled by `w`, if any.
fn keyword(w: &String) -> (r: Option<Sym>)
    ensures
        r == keyword_spec(w@),
{
    if *w == "let".to_owned() {
        Some(Sym::KwLet)
    } else if *w == "in".to_owned() {
        Some(Sym::KwIn)
    } else if *w == "match".to_owned() {
        Some(Sym::KwMatch)
    } else if *w == "of".to_owned() {
        Some(Sym::KwOf)
    } else if *w == "as".to_owned() {
        Some(Sym::KwAs)
    } else if *w == "alias".to_owned() {
        Some(Sym::KwAlias)
    } else if *w == "fold".to_owned() {
        Some(Sym::KwFold)
    } else if *w == "unfold".to_owned() {
        Some(Sym::KwUnfold)
    } else if *w == "Box".to_owned() {
        Some(Sym::KwBoxTy)
    } else if *w == "box".to_owned() {
        Some(Sym::KwBoxOp)
    } else {
        None
    }
}

/// The one-character symbol `c`, if any.
fn single_sym(c: char) -> (r: Option<Sym>)
    ensures
        r == sym_spec(c),
{
    if c == '=' {
        Some(Sym::Eq)
    } else if c == ':' {
        Some(Sym::Colon)
    } else if c == ',' {
        Some(Sym::Comma)
    } else if c == ';' {
        Some(Sym::Semi)
    } else if c == '.' {
        Some(Sym::Dot)
    } else if c == '|' {
        Some(Sym::VertPipe)
    } else if c == '(' {
        Some(Sym::LParen)
    } else if c == ')' {
        Some(Sym::RParen)
    } else if c == '[' {
        Some(Sym::LBracket)
    } else if c == ']' {
        Some(Sym::RBracket)
    } else if c == '{' {
        Some(Sym::LBrace)
    } else if c == '}' {
        Some(Sym::RBrace)
    } else if c == '<' {
        Some(Sym::LAngle)
    } else if c == '>' {
        Some(Sym::RAngle)
    } else if c == '\u{b5}' {
        Some(Sym::KwMu)
    } else {
        None
    }
}

proof fn lemma_digits_end(src: Seq<char>, j: int)
    requires
        0 <= j <= src.len(),
    ensures
        j <= digits_end(src, j) <= src.len(),
    decreases src.len() - j,
{
    if j < src.len() && is_digit_spec(src[j]) {
        lemma_digits_end(src, j + 1);
    }
}

proof fn lemma_ident_end(src: Seq<char>, j: int)
    requires
        0 <= j <= src.len(),
    ensures
        j <= ident_end(src, j) <= src.len(),
    decreases src.len() - j,
{
    if j < src.len() && is_ident_char_spec(src[j]) {
        lemma_ident_end(src, j + 1);
    }
}

/// A token ends after where the search for it began.
proof fn lemma_next_token_spec(src: Seq<char>, i: int)
    requires
        0 <= i <= src.len(),
    ensures
        next_token_spec(src, i) matches Ok(Some((_, e))) ==> i < e <= src.len(),
{
    lemma_skip_ws(src, i);
    let s = skip_ws_spec(src, i);
    if s < src.len() {
        lemma_digits_end(src, s + 1);
        lemma_ident_end(src, s + 1);
    }
}

fn is_alpha(c: char) -> (r: bool)
    ensures
        r == is_alpha_spec(c),
{
    ('a' <= c && c <= 'z') || ('A' <= c && c <= 'Z')
}

fn is_digit(c: char) -> (r: bool)
    ensures
        r == is_digit_spec(c),
{
    '0' <= c && c <= '9'
}

fn is_ident_char(c: char) -> (r: bool)
    ensures
        r == is_ident_char_spec(c),
{
    is_alpha(c) || is_digit(c) || c == '_'
}

/// Splits source text into tokens. Whitespace and `--` comments up to the
/// end of the line are skipped.
pub(crate) struct Tokenizer {
    pub(crate) src: Vec<char>,
    pub(crate) current: usize,
}

impl Tokenizer {
    pub(crate) fn new(src: &str) -> (r: Self)
        ensures
            r.current == 0,
            r.src@ == src@,
    {
        Tokenizer { src: chars_of(src), current: 0 }
    }

    /// Moves past whitespace and comments.
    fn skip_ws(&mut self)
        requires
            old(self).current <= old(self).src@.len(),
        ensures
            final(self).src == old(self).src,
            final(self).current == skip_ws_spec(old(self).src@, old(self).current as int),
    {
        proof {
            lemma_skip_ws(self.src@, self.current as int);
        }
        loop
            invariant
                self.src == old(self).src,
                self.current <= self.src@.len(),
                skip_ws_spec(self.src@, self.current as int) == skip_ws_spec(self.src@, old(self).current as int),
            ensures
                self.src == old(self).src,
                self.current == skip_ws_spec(old(self).src@, old(self).current as int),
            decreases self.src@.len() - self.current,
        {
            if self.current >= self.src.len() {
                break ;
            }
            let c = self.src[self.current];
            let here = self.current;
            if c == ' ' || c == '\t' || c == '\n' || c == '\r' {
                self.current = self.current + 1;
            } else if c == '-' && self.current + 1 < self.src.len() && self.src[self.current + 1] == '-' {
                self.current = self.current + 2;
                proof {
                    lemma_comment_end(self.src@, self.current as int);
                }
                while self.current < self.src.len() && self.src[self.current] != '\n'
                    invariant
                        self.src == old(self).src,
                        here + 2 <= self.current <= self.src@.len(),
                        comment_end(self.src@, self.current as int) == comment_end(self.src@, here + 2),
                    decreases self.src@.len() - self.current,
                {
                    self.current = self.current + 1;
                }
                proof {
                    assert(comment_end(self.src@, self.current as int) == self.current);
                }
            } else {
                break ;
            }
        }
    }

    /// The next token, as `next_token_spec` says, and the position after it.
    fn next_token(&mut self) -> (r: Result<Option<Token>, SyntaxError>)
        requires
            old(self).current <= old(self).src@.len(),
        ensures
            final(self).src == old(self).src,
            final(self).current <= final(self).src@.len(),
            match next_token_spec(old(self).src@, old(self).current as int) {
                Err(x) => r == Err::<Option<Token>, SyntaxError>(x),
                Ok(None) => r matches Ok(None),
                Ok(Some((tv, e))) => r matches Ok(Some(t)) && t@ == tv && final(self).current == e,
            },
    {
        self.skip_ws();
        proof {
            lemma_skip_ws(self.src@, old(self).current as int);
        }
        let start = self.current;
        if self.current >= self.src.len() {
            return Ok(None);
        }
        let c = self.src[self.current];
        self.current = self.current + 1;
        if c == '=' && self.current < self.src.len() && self.src[self.current] == '>' {
            self.current = self.current + 1;
            return Ok(Some(Token::Sym(Sym::WideArrow)));
        }
        if let Some(s) = single_sym(c) {
            return Ok(Some(Token::Sym(s)));
        }
        if is_digit(c) {
            let mut value: u64 = digit_value(c);
            let mut overflow = false;
            proof {
                assert(self.src@.subrange(start as int, start + 1).drop_last() =~= Seq::<char>::empty());
                assert(self.src@.subrange(start as int, start + 1).last() == c);
                assert(dec_value(Seq::<char>::empty()) == 0);
            }
            while self.current < self.src.len() && is_digit(self.src[self.current])
                invariant
                    self.src == old(self).src,
                    start < self.current <= self.src@.len(),
                    digits_end(self.src@, self.current as int) == digits_end(self.src@, start + 1),
                    !overflow ==> value == dec_value(self.src@.subrange(start as int, self.current as int)),
                    overflow ==> dec_value(self.src@.subrange(start as int, self.current as int)) > u64::MAX,
                decreases self.src@.len() - self.current,
            {
                let d = digit_value(self.src[self.current]);
                proof {
                    assert(self.src@.subrange(start as int, self.current + 1).last() == self.src@[self.current as int]);
                }
                let ghost before = dec_value(self.src@.subrange(start as int, self.current as int));
                proof {
                    assert(self.src@.subrange(start as int, self.current + 1).drop_last() =~= self.src@.subrange(
                        start as int,
                        self.current as int,
                    ));
                    assert(dec_value(self.src@.subrange(start as int, self.current + 1)) == before * 10 + d);
                }
                if !overflow && value <= (u64::MAX - d) / 10 {
                    proof {
                        assert(value * 10 + d <= u64::MAX) by (nonlinear_arith)
                            requires
                                value <= (u64::MAX - d) / 10,
                                d <= 9,
                        ;
                    }
                    value = value * 10 + d;
                } else {
                    proof {
                        if overflow {
                            assert(before * 10 + d > u64::MAX) by (nonlinear_arith)
                                requires
                                    before > u64::MAX,
                            ;
                        } else {
                            assert(value * 10 + d > u64::MAX) by (nonlinear_arith)
                                requires
                                    value > (u64::MAX - d) / 10,
                                    d <= 9,
                            ;
                        }
                    }
                    overflow = true;
                }
                self.current = self.current + 1;
            }
            if overflow {
                return Err(SyntaxError::InvalidNumber);
            }
            return Ok(Some(Token::Number(value)));
        }
        if is_alpha(c) || c == '_' {
            while self.current < self.src.len() && is_ident_char(self.src[self.current])
                invariant
                    self.src == old(self).src,
                    start < self.current <= self.src@.len(),
                    ident_end(self.src@, self.current as int) == ident_end(self.src@, start + 1),
                decreases self.src@.len() - self.current,
            {
                self.current = self.current + 1;
            }
            let lexeme = string_of(chars_between(&self.src, start, self.current));
            return match keyword(&lexeme) {
                Some(k) => Ok(Some(Token::Sym(k))),
                None => Ok(Some(Token::Ident(lexeme))),
            };
        }
        Err(SyntaxError::UnexpectedChar)
    }

    /// All the tokens of the text, as `lex_spec` says.
    pub(crate) fn tokens(&mut self) -> (r: Result<Vec<Token>, SyntaxError>)
        requires
            old(self).current <= old(self).src@.len(),
        ensures
            match lex_spec(old(self).src@, old(self).current as int) {
                Ok(ts) => r matches Ok(v) && v@.map_values(|t: Token| t@) == ts,
                Err(x) => r == Err::<Vec<Token>, SyntaxError>(x),
            },
    {
        let mut out: Vec<Token> = Vec::new();
        let ghost src = self.src@;
        let ghost i0 = self.current as int;
        loop
            invariant
                self.src@ == src,
                src == old(self).src@,
                i0 == old(self).current as int,
                self.current <= self.src@.len(),
                match lex_spec(src, self.current as int) {
                    Ok(rest) => lex_spec(src, i0) == Ok::<Seq<TokenView>, SyntaxError>(
                        out@.map_values(|t: Token| t@) + rest,
                    ),
                    Err(x) => lex_spec(src, i0) == Err::<Seq<TokenView>, SyntaxError>(x),
                },
            decreases self.src@.len() - self.current,
        {
            let ghost cur = self.current as int;
            proof {
                lemma_next_token_spec(src, cur);
            }
            match self.next_token() {
                Ok(Some(t)) => {
                    proof {
                        assert(out@.push(t).map_values(|t: Token| t@) =~= out@.map_values(|t: Token| t@).push(t@));
                        match lex_spec(src, self.current as int) {
                            Ok(rest) => {
                                assert(seq![t@] + rest =~= seq![t@].add(rest));
                                assert(out@.map_values(|t: Token| t@) + (seq![t@] + rest) =~= out@.push(t).map_values(
                                    |t: Token| t@,
                                ) + rest);
                            },
                            Err(_) => {},
                        }
                    }
                    out.push(t);
                },
                Ok(None) => {
                    proof {
                        assert(next_token_spec(src, cur) == Ok::<Option<(TokenView, int)>, SyntaxError>(None));
                        assert(lex_spec(src, cur) == Ok::<Seq<TokenView>, SyntaxError>(Seq::empty()));
                        assert(out@.map_values(|t: Token| t@) + Seq::<TokenView>::empty() =~= out@.map_values(
                            |t: Token| t@,
                        ));
                    }
                    return Ok(out);
                },
                Err(e) => {
                    proof {
                        assert(next_token_spec(src, cur) == Err::<Option<(TokenView, int)>, SyntaxError>(e));
                        assert(lex_spec(src, cur) == Err::<Seq<TokenView>, SyntaxError>(e));
                    }
                    return Err(e);
                },
            }
        }
    }
}

} // verus!
