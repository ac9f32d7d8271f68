//! Tokens of the style language, read with cssparser's tokenizer.
use crate::text::{is_css_space, is_single_char, starts_with_pair, starts_with_space};
use cssparser::{Parser, Token};
use vstd::prelude::*;
use vstd::string::*;

verus! {

/// A token as the tokenizer reports it. Numbers are kept as the bit pattern of the
/// single-precision value that the tokenizer read, so that they pass through unchanged.
/// Punctuation, whitespace and comments are all `Other`: they are told apart by their
/// text (see `Lexeme`).
#[derive(Clone, Debug, PartialEq)]
pub enum CssToken {
    Ident(String),
    /// `#name`, without the `#`.
    Hash(String),
    /// A quoted string, without the quotes.
    QuotedString(String),
    /// `@name`.
    AtKeyword,
    Number(u32),
    /// A percentage, as the fraction it stands for (`50%` is 0.5).
    Percentage(u32),
    /// A number with a unit, such as `12px`.
    Dimension(u32, String),
    Other,
}

/// A token together with the source text it was read from.
#[derive(Clone, Debug)]
pub struct Lexeme {
    pub token: CssToken,
    pub text: String,
}

impl View for Lexeme {
    type V = (CssToken, Seq<char>);

    open spec fn view(&self) -> (CssToken, Seq<char>) {
        (self.token, self.text@)
    }
}

/// The first token of a text and the text it covers, as cssparser's tokenizer reads
/// them; `None` where no token is left.
pub uninterp spec fn css_first_token(s: Seq<char>) -> Option<(CssToken, Seq<char>)>;

/// Relies on cssparser's `Parser::next_including_whitespace_and_comments`: the first
/// token of `src`, and `src` split at the position where that token ends.
#[verifier::external_body]
fn first_token<'a>(src: &'a str) -> (r: Option<(CssToken, (&'a str, &'a str))>)
    ensures
        match r {
            None => css_first_token(src@) is None,
            Some((token, (text, rest))) => {
                &&& css_first_token(src@) == Some((token, text@))
                &&& src@ == text@ + rest@
            },
        },
{
    let mut p = Parser::new(src);
    let token = match p.next_including_whitespace_and_comments().ok()? {
        Token::Ident(s) => CssToken::Ident(s.to_string()),
        Token::Hash(s) | Token::IDHash(s) => CssToken::Hash(s.to_string()),
        Token::QuotedString(s) => CssToken::QuotedString(s.to_string()),
        Token::AtKeyword(_) => CssToken::AtKeyword,
        Token::Number { value, .. } => CssToken::Number(value.to_bits()),
        Token::Percentage { unit_value, .. } => CssToken::Percentage(unit_value.to_bits()),
        Token::Dimension { value, unit, .. } => CssToken::Dimension(value.to_bits(), unit.to_string()),
        _ => CssToken::Other,
    };
    Some((token, src.split_at(p.position().byte_index())))
}

/// The tokens of a whole text, in order.
pub open spec fn lex(s: Seq<char>) -> Seq<(CssToken, Seq<char>)>
    decreases s.len(),
{
    match css_first_token(s) {
        None => seq![],
        Some((token, text)) => {
            if 0 < text.len() <= s.len() {
                seq![(token, text)] + lex(s.subrange(text.len() as int, s.len() as int))
            } else {
                seq![]
            }
        },
    }
}

/// Splits a style sheet into its tokens.
pub fn tokenize(css: &str) -> (r: Vec<Lexeme>)
    ensures
        r@.map_values(|l: Lexeme| l@) == lex(css@),
{
    let mut out: Vec<Lexeme> = Vec::new();
    let mut rest: &str = css;
    loop
        invariant
            out@.map_values(|l: Lexeme| l@) + lex(rest@) == lex(css@),
        ensures
            out@.map_values(|l: Lexeme| l@) == lex(css@),
        decreases rest@.len(),
    {
        match first_token(rest) {
            None => {
                assert(out@.map_values(|l: Lexeme| l@) + lex(rest@) =~= out@.map_values(|l: Lexeme| l@));
                break;
            },
            Some((token, (text, after))) => {
                if text.is_empty() {
                    assert(out@.map_values(|l: Lexeme| l@) + lex(rest@) =~= out@.map_values(|l: Lexeme| l@));
                    break;
                }
                assert(rest@.subrange(text@.len() as int, rest@.len() as int) =~= after@);
                let ghost before = out@;
                let lexeme = Lexeme { token, text: String::from_str(text) };
                out.push(lexeme);
                assert(out@.map_values(|l: Lexeme| l@) =~= before.map_values(|l: Lexeme| l@) + seq![lexeme@]);
                assert(seq![lexeme@] + lex(after@) == lex(rest@));
                assert(out@.map_values(|l: Lexeme| l@) + lex(after@) =~= before.map_values(|l: Lexeme| l@) + lex(rest@));
                rest = after;
            },
        }
    }
    out
}

/// Whitespace: a token whose text starts with a whitespace character.
pub open spec fn is_space(l: (CssToken, Seq<char>)) -> bool {
    l.0 is Other && l.1.len() > 0 && is_css_space(l.1[0])
}

/// A comment: a token whose text starts with `/*`.
pub open spec fn is_comment(l: (CssToken, Seq<char>)) -> bool {
    l.0 is Other && l.1.len() >= 2 && l.1[0] == '/' && l.1[1] == '*'
}

/// Whitespace or a comment, which the grammar skips between tokens.
pub open spec fn is_trivia(l: (CssToken, Seq<char>)) -> bool {
    is_space(l) || is_comment(l)
}

/// The punctuation token `c` (`:`, `;`, `{` or `}`).
pub open spec fn is_punct(l: (CssToken, Seq<char>), c: char) -> bool {
    l.0 is Other && l.1 == seq![c]
}

impl Lexeme {
    pub fn is_trivia(&self) -> (r: bool)
        ensures
            r == is_trivia(self@),
    {
        match self.token {
            CssToken::Other => starts_with_space(self.text.as_str()) || starts_with_pair(
                self.text.as_str(),
                '/',
                '*',
            ),
            _ => false,
        }
    }

    pub fn is_space(&self) -> (r: bool)
        ensures
            r == is_space(self@),
    {
        match self.token {
            CssToken::Other => starts_with_space(self.text.as_str()),
            _ => false,
        }
    }

    pub fn is_comment(&self) -> (r: bool)
        ensures
            r == is_comment(self@),
    {
        match self.token {
            CssToken::Other => starts_with_pair(self.text.as_str(), '/', '*'),
            _ => false,
        }
    }

    pub fn is_punct(&self, c: char) -> (r: bool)
        ensures
            r == is_punct(self@, c),
    {
        match self.token {
            CssToken::Other => is_single_char(self.text.as_str(), c),
            _ => false,
        }
    }
}

} // verus!
