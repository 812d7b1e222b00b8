//! The tokenizer: a pull-based scanner that turns the input stream into
//! classified tokens.
//!
//! `scan_token` is the mathematical description of one `next_token` step:
//! starting from a position it skips insignificant whitespace and comments,
//! then either classifies the next lexical unit (an identifier or keyword, a
//! punctuator, an operator, or the end-of-input token) together with the
//! position right after it, or reports the position of a lexical error (an
//! illegal byte, or an unterminated block comment).

use vstd::prelude::*;
use crate::parser::input_stream::VecInputStream;

verus! {

/// The classification of a lexical unit.
#[derive(Debug, Clone, Copy, PartialEq, Eq, Structural)]
pub enum Token {
    Identifier,
    VarKeyword,
    IfKeyword,
    OpenBrace,
    CloseBrace,
    OpenParen,
    CloseParen,
    Semicolon,
    Comma,
    Question,
    Colon,
    LogicalOr,
    LogicalAnd,
    BitOr,
    BitXor,
    BitAnd,
    StrictEqual,
    StrictNotEqual,
    Equal,
    NotEqual,
    LessEqual,
    GreaterEqual,
    Less,
    Greater,
    ShiftLeft,
    ShiftRight,
    ShiftRightUnsigned,
    Plus,
    Minus,
    Star,
    Slash,
    Percent,
    Assign,
    PlusAssign,
    MinusAssign,
    StarAssign,
    SlashAssign,
    PercentAssign,
    ShiftLeftAssign,
    ShiftRightAssign,
    ShiftRightUnsignedAssign,
    AndAssign,
    OrAssign,
    XorAssign,
    End,
}

/// The assignment-operator family: plain `=` and the compound forms.
pub open spec fn is_assign_op(t: Token) -> bool {
    ||| t is Assign
    ||| t is PlusAssign
    ||| t is MinusAssign
    ||| t is StarAssign
    ||| t is SlashAssign
    ||| t is PercentAssign
    ||| t is ShiftLeftAssign
    ||| t is ShiftRightAssign
    ||| t is ShiftRightUnsignedAssign
    ||| t is AndAssign
    ||| t is OrAssign
    ||| t is XorAssign
}

/// Binding strength of a binary operator, higher binds tighter;
/// zero for every token that is not a binary operator.
pub open spec fn binary_prec(t: Token) -> u32 {
    match t {
        Token::LogicalOr => 1,
        Token::LogicalAnd => 2,
        Token::BitOr => 3,
        Token::BitXor => 4,
        Token::BitAnd => 5,
        Token::StrictEqual => 6,
        Token::StrictNotEqual => 6,
        Token::Equal => 6,
        Token::NotEqual => 6,
        Token::LessEqual => 7,
        Token::GreaterEqual => 7,
        Token::Less => 7,
        Token::Greater => 7,
        Token::ShiftLeft => 8,
        Token::ShiftRight => 8,
        Token::ShiftRightUnsigned => 8,
        Token::Plus => 9,
        Token::Minus => 9,
        Token::Star => 10,
        Token::Slash => 10,
        Token::Percent => 10,
        _ => 0,
    }
}

/// The source spelling of each fixed-text token; identifiers carry their own
/// text, and the end-of-input token is spelled empty.
pub open spec fn spelling(t: Token) -> Seq<char> {
    match t {
        Token::VarKeyword => "var"@,
        Token::IfKeyword => "if"@,
        Token::OpenBrace => "{"@,
        Token::CloseBrace => "}"@,
        Token::OpenParen => "("@,
        Token::CloseParen => ")"@,
        Token::Semicolon => ";"@,
        Token::Comma => ","@,
        Token::Question => "?"@,
        Token::Colon => ":"@,
        Token::LogicalOr => "||"@,
        Token::LogicalAnd => "&&"@,
        Token::BitOr => "|"@,
        Token::BitXor => "^"@,
        Token::BitAnd => "&"@,
        Token::StrictEqual => "==="@,
        Token::StrictNotEqual => "!=="@,
        Token::Equal => "=="@,
        Token::NotEqual => "!="@,
        Token::LessEqual => "<="@,
        Token::GreaterEqual => ">="@,
        Token::Less => "<"@,
        Token::Greater => ">"@,
        Token::ShiftLeft => "<<"@,
        Token::ShiftRight => ">>"@,
        Token::ShiftRightUnsigned => ">>>"@,
        Token::Plus => "+"@,
        Token::Minus => "-"@,
        Token::Star => "*"@,
        Token::Slash => "/"@,
        Token::Percent => "%"@,
        Token::Assign => "="@,
        Token::PlusAssign => "+="@,
        Token::MinusAssign => "-="@,
        Token::StarAssign => "*="@,
        Token::SlashAssign => "/="@,
        Token::PercentAssign => "%="@,
        Token::ShiftLeftAssign => "<<="@,
        Token::ShiftRightAssign => ">>="@,
        Token::ShiftRightUnsignedAssign => ">>>="@,
        Token::AndAssign => "&="@,
        Token::OrAssign => "|="@,
        Token::XorAssign => "^="@,
        Token::Identifier => Seq::empty(),
        Token::End => Seq::empty(),
    }
}

impl Token {
    /// True exactly for identifier tokens.
    pub fn is_identifier(&self) -> (r: bool)
        ensures
            r == (*self is Identifier),
    {
        matches!(self, Token::Identifier)
    }

    /// True exactly for the assignment-operator family.
    pub fn is_assignment_op(&self) -> (r: bool)
        ensures
            r == is_assign_op(*self),
    {
        matches!(
            self,
            Token::Assign | Token::PlusAssign | Token::MinusAssign | Token::StarAssign
                | Token::SlashAssign | Token::PercentAssign | Token::ShiftLeftAssign
                | Token::ShiftRightAssign | Token::ShiftRightUnsignedAssign | Token::AndAssign
                | Token::OrAssign | Token::XorAssign
        )
    }

    /// Binding strength as a binary operator; zero for every other token.
    pub fn binary_precedence(&self) -> (r: u32)
        ensures
            r == binary_prec(*self),
    {
        match self {
            Token::LogicalOr => 1,
            Token::LogicalAnd => 2,
            Token::BitOr => 3,
            Token::BitXor => 4,
            Token::BitAnd => 5,
            Token::StrictEqual => 6,
            Token::StrictNotEqual => 6,
            Token::Equal => 6,
            Token::NotEqual => 6,
            Token::LessEqual => 7,
            Token::GreaterEqual => 7,
            Token::Less => 7,
            Token::Greater => 7,
            Token::ShiftLeft => 8,
            Token::ShiftRight => 8,
            Token::ShiftRightUnsigned => 8,
            Token::Plus => 9,
            Token::Minus => 9,
            Token::Star => 10,
            Token::Slash => 10,
            Token::Percent => 10,
            _ => 0,
        }
    }
}

/// Insignificant whitespace between tokens.
pub open spec fn is_ws(b: u8) -> bool {
    b == 32 || b == 9 || b == 10 || b == 13
}

/// Bytes that may start an identifier.
pub open spec fn is_ident_start(b: u8) -> bool {
    (97 <= b <= 122) || (65 <= b <= 90) || b == 95 || b == 36
}

/// Bytes that may continue an identifier.
pub open spec fn is_ident_cont(b: u8) -> bool {
    is_ident_start(b) || (48 <= b <= 57)
}

/// The bytes of an ASCII run read as characters.
pub open spec fn chars_of(s: Seq<u8>) -> Seq<char> {
    s.map_values(|b: u8| b as char)
}

/// Position right after a line comment that began before `pos`: right after
/// the next newline, or the end of input.
pub open spec fn line_comment_end(s: Seq<u8>, pos: int) -> int
    decreases s.len() - pos,
{
    if !(0 <= pos < s.len()) {
        pos
    } else if s[pos] == 10 {
        pos + 1
    } else {
        line_comment_end(s, pos + 1)
    }
}

pub proof fn lemma_line_comment_end(s: Seq<u8>, pos: int)
    requires
        0 <= pos <= s.len(),
    ensures
        pos <= line_comment_end(s, pos) <= s.len(),
    decreases s.len() - pos,
{
    if 0 <= pos < s.len() && s[pos] != 10 {
        lemma_line_comment_end(s, pos + 1);
    }
}

/// Position right after the `*/` that closes a block comment whose body
/// starts at `pos`, or `None` when the comment never closes.
pub open spec fn block_comment_end(s: Seq<u8>, pos: int) -> Option<int>
    decreases s.len() - pos,
{
    if !(0 <= pos) {
        None
    } else if pos + 2 > s.len() {
        None
    } else if s[pos] == 42 && s[pos + 1] == 47 {
        Some(pos + 2)
    } else {
        block_comment_end(s, pos + 1)
    }
}

pub proof fn lemma_block_comment_end(s: Seq<u8>, pos: int)
    requires
        0 <= pos,
    ensures
        block_comment_end(s, pos) matches Some(e) ==> pos + 2 <= e <= s.len(),
    decreases s.len() - pos,
{
    if 0 <= pos && pos + 2 <= s.len() && !(s[pos] == 42 && s[pos + 1] == 47) {
        lemma_block_comment_end(s, pos + 1);
    }
}

/// Position of the first byte of the next token at or after `pos`, skipping
/// whitespace, line comments and block comments; `Err` carries the position
/// of a block comment that reaches the end of input unterminated.
pub open spec fn skip_trivia(s: Seq<u8>, pos: int) -> Result<int, int>
    decreases s.len() - pos,
    via skip_trivia_decreases
{
    if !(0 <= pos < s.len()) {
        Ok(pos)
    } else if is_ws(s[pos]) {
        skip_trivia(s, pos + 1)
    } else if s[pos] == 47 && pos + 1 < s.len() && s[pos + 1] == 47 {
        skip_trivia(s, line_comment_end(s, pos + 2))
    } else if s[pos] == 47 && pos + 1 < s.len() && s[pos + 1] == 42 {
        match block_comment_end(s, pos + 2) {
            Some(e) => skip_trivia(s, e),
            None => Err(pos),
        }
    } else {
        Ok(pos)
    }
}

#[via_fn]
proof fn skip_trivia_decreases(s: Seq<u8>, pos: int) {
    if 0 <= pos < s.len() && s[pos] == 47 && pos + 1 < s.len() {
        if s[pos + 1] == 47 {
            lemma_line_comment_end(s, pos + 2);
        }
        if s[pos + 1] == 42 {
            lemma_block_comment_end(s, pos + 2);
        }
    }
}

pub proof fn lemma_skip_trivia(s: Seq<u8>, pos: int)
    requires
        0 <= pos <= s.len(),
    ensures
        skip_trivia(s, pos) matches Ok(p) ==> pos <= p <= s.len(),
    decreases s.len() - pos,
{
    if 0 <= pos < s.len() {
        if is_ws(s[pos]) {
            lemma_skip_trivia(s, pos + 1);
        } else if s[pos] == 47 && pos + 1 < s.len() && s[pos + 1] == 47 {
            lemma_line_comment_end(s, pos + 2);
            lemma_skip_trivia(s, line_comment_end(s, pos + 2));
        } else if s[pos] == 47 && pos + 1 < s.len() && s[pos + 1] == 42 {
            lemma_block_comment_end(s, pos + 2);
            if let Some(e) = block_comment_end(s, pos + 2) {
                lemma_skip_trivia(s, e);
            }
        }
    }
}

/// Position right after the identifier run that continues at `pos`.
pub open spec fn ident_end(s: Seq<u8>, pos: int) -> int
    decreases s.len() - pos,
{
    if 0 <= pos < s.len() && is_ident_cont(s[pos]) {
        ident_end(s, pos + 1)
    } else {
        pos
    }
}

pub proof fn lemma_ident_end(s: Seq<u8>, pos: int)
    requires
        0 <= pos <= s.len(),
    ensures
        pos <= ident_end(s, pos) <= s.len(),
        forall|m: int| pos <= m < ident_end(s, pos) ==> is_ident_cont(#[trigger] s[m]),
    decreases s.len() - pos,
{
    if 0 <= pos < s.len() && is_ident_cont(s[pos]) {
        lemma_ident_end(s, pos + 1);
    }
}

/// True when the bytes `start..end` of `s` spell the keyword `var`.
pub open spec fn spells_var(s: Seq<u8>, start: int, end: int) -> bool {
    end - start == 3 && s[start] == 118 && s[start + 1] == 97 && s[start + 2] == 114
}

/// True when the bytes `start..end` of `s` spell the keyword `if`.
pub open spec fn spells_if(s: Seq<u8>, start: int, end: int) -> bool {
    end - start == 2 && s[start] == 105 && s[start + 1] == 102
}

/// Longest-match classification of the punctuator or operator at `pos`,
/// with the position right after it; `None` when no token starts here.
pub open spec fn scan_op(s: Seq<u8>, pos: int) -> Option<(Token, int)> {
    if !(0 <= pos < s.len()) {
        None
    } else {
        let b = s[pos];
        let b1 = if pos + 1 < s.len() { s[pos + 1] as int } else { -1 };
        let b2 = if pos + 2 < s.len() { s[pos + 2] as int } else { -1 };
        let b3 = if pos + 3 < s.len() { s[pos + 3] as int } else { -1 };
        if b == 123 { Some((Token::OpenBrace, pos + 1)) }
        else if b == 125 { Some((Token::CloseBrace, pos + 1)) }
        else if b == 40 { Some((Token::OpenParen, pos + 1)) }
        else if b == 41 { Some((Token::CloseParen, pos + 1)) }
        else if b == 59 { Some((Token::Semicolon, pos + 1)) }
        else if b == 44 { Some((Token::Comma, pos + 1)) }
        else if b == 63 { Some((Token::Question, pos + 1)) }
        else if b == 58 { Some((Token::Colon, pos + 1)) }
        else if b == 124 {
            if b1 == 124 { Some((Token::LogicalOr, pos + 2)) }
            else if b1 == 61 { Some((Token::OrAssign, pos + 2)) }
            else { Some((Token::BitOr, pos + 1)) }
        }
        else if b == 38 {
            if b1 == 38 { Some((Token::LogicalAnd, pos + 2)) }
            else if b1 == 61 { Some((Token::AndAssign, pos + 2)) }
            else { Some((Token::BitAnd, pos + 1)) }
        }
        else if b == 94 {
            if b1 == 61 { Some((Token::XorAssign, pos + 2)) }
            else { Some((Token::BitXor, pos + 1)) }
        }
        else if b == 61 {
            if b1 == 61 && b2 == 61 { Some((Token::StrictEqual, pos + 3)) }
            else if b1 == 61 { Some((Token::Equal, pos + 2)) }
            else { Some((Token::Assign, pos + 1)) }
        }
        else if b == 33 {
            if b1 == 61 && b2 == 61 { Some((Token::StrictNotEqual, pos + 3)) }
            else if b1 == 61 { Some((Token::NotEqual, pos + 2)) }
            else { None }
        }
        else if b == 60 {
            if b1 == 60 && b2 == 61 { Some((Token::ShiftLeftAssign, pos + 3)) }
            else if b1 == 60 { Some((Token::ShiftLeft, pos + 2)) }
            else if b1 == 61 { Some((Token::LessEqual, pos + 2)) }
            else { Some((Token::Less, pos + 1)) }
        }
        else if b == 62 {
            if b1 == 62 && b2 == 62 && b3 == 61 { Some((Token::ShiftRightUnsignedAssign, pos + 4)) }
            else if b1 == 62 && b2 == 62 { Some((Token::ShiftRightUnsigned, pos + 3)) }
            else if b1 == 62 && b2 == 61 { Some((Token::ShiftRightAssign, pos + 3)) }
            else if b1 == 62 { Some((Token::ShiftRight, pos + 2)) }
            else if b1 == 61 { Some((Token::GreaterEqual, pos + 2)) }
            else { Some((Token::Greater, pos + 1)) }
        }
        else if b == 43 {
            if b1 == 61 { Some((Token::PlusAssign, pos + 2)) }
            else { Some((Token::Plus, pos + 1)) }
        }
        else if b == 45 {
            if b1 == 61 { Some((Token::MinusAssign, pos + 2)) }
            else { Some((Token::Minus, pos + 1)) }
        }
        else if b == 42 {
            if b1 == 61 { Some((Token::StarAssign, pos + 2)) }
            else { Some((Token::Star, pos + 1)) }
        }
        else if b == 47 {
            if b1 == 61 { Some((Token::SlashAssign, pos + 2)) }
            else { Some((Token::Slash, pos + 1)) }
        }
        else if b == 37 {
            if b1 == 61 { Some((Token::PercentAssign, pos + 2)) }
            else { Some((Token::Percent, pos + 1)) }
        }
        else { None }
    }
}

/// One step of the tokenizer: the next token at or after `pos` together with
/// the position right after it, or the position of a lexical error.
pub open spec fn scan_token(s: Seq<u8>, pos: int) -> Result<(TokenModel, int), int> {
    match skip_trivia(s, pos) {
        Err(e) => Err(e),
        Ok(start) => {
            if start >= s.len() {
                Ok((TokenModel { kind: Token::End, text: Seq::empty(), pos: start }, start))
            } else if is_ident_start(s[start]) {
                let end = ident_end(s, start + 1);
                let kind = if spells_var(s, start, end) {
                    Token::VarKeyword
                } else if spells_if(s, start, end) {
                    Token::IfKeyword
                } else {
                    Token::Identifier
                };
                Ok((TokenModel { kind, text: chars_of(s.subrange(start, end)), pos: start }, end))
            } else {
                match scan_op(s, start) {
                    Some((kind, end)) => Ok(
                        (TokenModel { kind, text: spelling(kind), pos: start }, end),
                    ),
                    None => Err(start),
                }
            }
        },
    }
}

/// Every token lies inside the input, and every token but end-of-input
/// consumes at least one byte.
pub proof fn lemma_scan_token(s: Seq<u8>, pos: int)
    requires
        0 <= pos <= s.len(),
    ensures
        scan_token(s, pos) matches Ok(te) ==> {
            &&& pos <= te.0.pos <= te.1 <= s.len()
            &&& (!(te.0.kind is End) ==> te.0.pos < te.1)
            &&& (te.0.kind is End ==> te.0.pos == te.1)
        },
{
    lemma_skip_trivia(s, pos);
    if let Ok(start) = skip_trivia(s, pos) {
        if start < s.len() && is_ident_start(s[start]) {
            lemma_ident_end(s, start + 1);
        }
    }
}

/// Mathematical model of a token: its kind, its source text and the position
/// of its first byte.
pub struct TokenModel {
    pub kind: Token,
    pub text: Seq<char>,
    pub pos: int,
}

/// A classified token together with its source text and position. Tokens are
/// immutable value data: produced once by the tokenizer and owned thereafter
/// by whichever syntax-tree node embeds them.
#[derive(Debug)]
pub struct FullToken {
    kind: Token,
    text: String,
    pos: usize,
}

impl View for FullToken {
    type V = TokenModel;

    closed spec fn view(&self) -> TokenModel {
        TokenModel { kind: self.kind, text: self.text@, pos: self.pos as int }
    }
}

impl FullToken {
    pub fn new(kind: Token, text: String, pos: usize) -> (t: FullToken)
        ensures
            t@ == (TokenModel { kind, text: text@, pos: pos as int }),
    {
        FullToken { kind, text, pos }
    }

    /// The token's kind.
    pub fn kind(&self) -> (k: Token)
        ensures
            k == self@.kind,
    {
        self.kind
    }

    /// The token's source text.
    pub fn text(&self) -> (t: &String)
        ensures
            t@ == self@.text,
    {
        &self.text
    }

    /// The position of the token's first byte.
    pub fn position(&self) -> (p: usize)
        ensures
            p as int == self@.pos,
    {
        self.pos
    }

    /// Appends the token's source text to `w`.
    pub fn write_token(&self, w: &mut String)
        ensures
            final(w)@ == old(w)@ + self@.text,
    {
        w.append(self.text.as_str());
    }
}

/// Relies on core::str::from_utf8: ASCII bytes decode to exactly one
/// character per byte, each with the byte's own code.
#[verifier::external_body]
fn ascii_to_string(v: &Vec<u8>) -> (r: String)
    requires
        forall|m: int| 0 <= m < v@.len() ==> v@[m] < 128,
    ensures
        r@ == chars_of(v@),
{
    match core::str::from_utf8(v.as_slice()) {
        Ok(s) => s.to_owned(),
        Err(_) => String::new(),
    }
}

/// Identifier-continue test on one byte.
fn ident_cont_byte(c: u8) -> (r: bool)
    ensures
        r == is_ident_cont(c),
{
    (97 <= c && c <= 122) || (65 <= c && c <= 90) || c == 95 || c == 36 || (48 <= c && c <= 57)
}

/// A lexical error: the tokenizer could form no token at this position.
#[derive(Debug, Clone, Copy, PartialEq, Eq, Structural)]
pub struct LexicalError {
    pub pos: usize,
}

/// One tokenizer step over the raw bytes: the token starting at or after
/// `pos` and the position right after it, or the position of a lexical error.
pub(crate) fn scan(bytes: &Vec<u8>, pos: usize) -> (r: Result<(FullToken, usize), usize>)
    requires
        pos <= bytes@.len(),
    ensures
        (match scan_token(bytes@, pos as int) {
            Ok(te) => r matches Ok(fp) && fp.0@ == te.0 && fp.1 as int == te.1,
            Err(e) => r matches Err(q) && q as int == e,
        }),
        r matches Ok(fp) ==> {
            &&& pos <= fp.0@.pos <= fp.1 <= bytes@.len()
            &&& (!(fp.0@.kind is End) ==> pos < fp.1)
        },
{
    let ghost s = bytes@;
    proof {
        lemma_scan_token(s, pos as int);
    }
    let n = bytes.len();
    let mut i = pos;
    let mut done = false;
    while !done
        invariant
            pos <= i <= n,
            n == s.len(),
            s == bytes@,
            !done ==> skip_trivia(s, pos as int) == skip_trivia(s, i as int),
            done ==> skip_trivia(s, pos as int) == Ok::<int, int>(i as int),
        decreases n - i + (if done { 0int } else { 1int }),
    {
        if i >= n {
            done = true;
        } else {
            let b = bytes[i];
            if b == 32 || b == 9 || b == 10 || b == 13 {
                i = i + 1;
            } else if b == 47 && i + 1 < n && bytes[i + 1] == 47 {
                let mut j = i + 2;
                while j < n && bytes[j] != 10
                    invariant
                        i + 2 <= j <= n,
                        n == s.len(),
                        s == bytes@,
                        line_comment_end(s, (i + 2) as int) == line_comment_end(s, j as int),
                    decreases n - j,
                {
                    j = j + 1;
                }
                if j < n {
                    j = j + 1;
                }
                i = j;
            } else if b == 47 && i + 1 < n && bytes[i + 1] == 42 {
                let mut j = i + 2;
                while n - j > 1 && !(bytes[j] == 42 && bytes[j + 1] == 47)
                    invariant
                        i + 2 <= j <= n,
                        n == s.len(),
                        s == bytes@,
                        block_comment_end(s, (i + 2) as int) == block_comment_end(s, j as int),
                    decreases n - j,
                {
                    j = j + 1;
                }
                if n - j > 1 {
                    i = j + 2;
                } else {
                    return Err(i);
                }
            } else {
                done = true;
            }
        }
    }
    let start = i;
    if start >= n {
        return Ok((FullToken::new(Token::End, String::new(), start), start));
    }
    let b = bytes[start];
    if (97 <= b && b <= 122) || (65 <= b && b <= 90) || b == 95 || b == 36 {
        let mut j = start + 1;
        while j < n && ident_cont_byte(bytes[j])
            invariant
                start + 1 <= j <= n,
                n == s.len(),
                s == bytes@,
                ident_end(s, (start + 1) as int) == ident_end(s, j as int),
            decreases n - j,
        {
            j = j + 1;
        }
        proof {
            lemma_ident_end(s, (start + 1) as int);
        }
        let mut nb: Vec<u8> = Vec::new();
        let mut k = start;
        while k < j
            invariant
                start <= k <= j <= n,
                n == s.len(),
                s == bytes@,
                nb@ == s.subrange(start as int, k as int),
            decreases j - k,
        {
            nb.push(bytes[k]);
            k = k + 1;
            proof {
                assert(nb@ =~= s.subrange(start as int, k as int));
            }
        }
        let kind = if j - start == 3 && bytes[start] == 118 && bytes[start + 1] == 97 && bytes[start
            + 2] == 114 {
            Token::VarKeyword
        } else if j - start == 2 && bytes[start] == 105 && bytes[start + 1] == 102 {
            Token::IfKeyword
        } else {
            Token::Identifier
        };
        let text = ascii_to_string(&nb);
        return Ok((FullToken::new(kind, text, start), j));
    }
    let b1 = if start + 1 < n {
        bytes[start + 1] as i32
    } else {
        -1
    };
    let b2 = if n - start > 2 {
        bytes[start + 2] as i32
    } else {
        -1
    };
    let b3 = if n - start > 3 {
        bytes[start + 3] as i32
    } else {
        -1
    };
    let (kind, len, text): (Token, usize, &str) = if b == 123 {
        (Token::OpenBrace, 1, "{")
    } else if b == 125 {
        (Token::CloseBrace, 1, "}")
    } else if b == 40 {
        (Token::OpenParen, 1, "(")
    } else if b == 41 {
        (Token::CloseParen, 1, ")")
    } else if b == 59 {
        (Token::Semicolon, 1, ";")
    } else if b == 44 {
        (Token::Comma, 1, ",")
    } else if b == 63 {
        (Token::Question, 1, "?")
    } else if b == 58 {
        (Token::Colon, 1, ":")
    } else if b == 124 {
        if b1 == 124 {
            (Token::LogicalOr, 2, "||")
        } else if b1 == 61 {
            (Token::OrAssign, 2, "|=")
        } else {
            (Token::BitOr, 1, "|")
        }
    } else if b == 38 {
        if b1 == 38 {
            (Token::LogicalAnd, 2, "&&")
        } else if b1 == 61 {
            (Token::AndAssign, 2, "&=")
        } else {
            (Token::BitAnd, 1, "&")
        }
    } else if b == 94 {
        if b1 == 61 {
            (Token::XorAssign, 2, "^=")
        } else {
            (Token::BitXor, 1, "^")
        }
    } else if b == 61 {
        if b1 == 61 && b2 == 61 {
            (Token::StrictEqual, 3, "===")
        } else if b1 == 61 {
            (Token::Equal, 2, "==")
        } else {
            (Token::Assign, 1, "=")
        }
    } else if b == 33 {
        if b1 == 61 && b2 == 61 {
            (Token::StrictNotEqual, 3, "!==")
        } else if b1 == 61 {
            (Token::NotEqual, 2, "!=")
        } else {
            return Err(start);
        }
    } else if b == 60 {
        if b1 == 60 && b2 == 61 {
            (Token::ShiftLeftAssign, 3, "<<=")
        } else if b1 == 60 {
            (Token::ShiftLeft, 2, "<<")
        } else if b1 == 61 {
            (Token::LessEqual, 2, "<=")
        } else {
            (Token::Less, 1, "<")
        }
    } else if b == 62 {
        if b1 == 62 && b2 == 62 && b3 == 61 {
            (Token::ShiftRightUnsignedAssign, 4, ">>>=")
        } else if b1 == 62 && b2 == 62 {
            (Token::ShiftRightUnsigned, 3, ">>>")
        } else if b1 == 62 && b2 == 61 {
            (Token::ShiftRightAssign, 3, ">>=")
        } else if b1 == 62 {
            (Token::ShiftRight, 2, ">>")
        } else if b1 == 61 {
            (Token::GreaterEqual, 2, ">=")
        } else {
            (Token::Greater, 1, ">")
        }
    } else if b == 43 {
        if b1 == 61 {
            (Token::PlusAssign, 2, "+=")
        } else {
            (Token::Plus, 1, "+")
        }
    } else if b == 45 {
        if b1 == 61 {
            (Token::MinusAssign, 2, "-=")
        } else {
            (Token::Minus, 1, "-")
        }
    } else if b == 42 {
        if b1 == 61 {
            (Token::StarAssign, 2, "*=")
        } else {
            (Token::Star, 1, "*")
        }
    } else if b == 47 {
        if b1 == 61 {
            (Token::SlashAssign, 2, "/=")
        } else {
            (Token::Slash, 1, "/")
        }
    } else if b == 37 {
        if b1 == 61 {
            (Token::PercentAssign, 2, "%=")
        } else {
            (Token::Percent, 1, "%")
        }
    } else {
        return Err(start);
    };
    Ok((FullToken::new(kind, String::from_str(text), start), start + len))
}

/// The tokenizer: pulls one token at a time from its input stream. It is
/// stateless between calls except for the shared stream cursor.
pub struct Tokenizer {
    pub stream: VecInputStream,
}

impl View for Tokenizer {
    type V = crate::parser::input_stream::StreamModel;

    open spec fn view(&self) -> crate::parser::input_stream::StreamModel {
        self.stream@
    }
}

impl Tokenizer {
    pub open spec fn wf(&self) -> bool {
        0 <= self@.pos <= self@.bytes.len()
    }

    /// Takes ownership of the stream whose cursor it will drive.
    pub fn new(stream: VecInputStream) -> (t: Tokenizer)
        requires
            stream.wf(),
        ensures
            t@ == stream@,
            t.wf(),
    {
        Tokenizer { stream }
    }

    /// Scans the next token from the current stream position, consuming it;
    /// on a lexical error the stream is left where the error was found.
    pub fn next_token(&mut self) -> (r: Result<FullToken, LexicalError>)
        requires
            old(self).wf(),
        ensures
            final(self).wf(),
            final(self)@.bytes == old(self)@.bytes,
            (match scan_token(old(self)@.bytes, old(self)@.pos) {
                Ok(te) => {
                    &&& r matches Ok(t) && t@ == te.0
                    &&& final(self)@.pos == te.1
                },
                Err(e) => {
                    &&& r matches Err(le) && le.pos as int == e
                    &&& final(self)@.pos == old(self)@.pos
                },
            }),
    {
        match scan(&self.stream.bytes, self.stream.pos) {
            Ok((t, p2)) => {
                proof {
                    lemma_scan_token(self.stream.bytes@, self.stream.pos as int);
                }
                self.stream.pos = p2;
                Ok(t)
            },
            Err(q) => Err(LexicalError { pos: q }),
        }
    }
}

} // verus!
