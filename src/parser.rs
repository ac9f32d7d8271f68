//! The rule parser: value decoders, the declaration parser and the style-sheet scanner,
//! each stated over the token sequence that `lexer::lex` gives.
use crate::lexer::{is_comment, is_punct, is_space, is_trivia, lex, tokenize, CssToken, Lexeme};
use crate::properties::{
    is_keyword_property, is_length_property, is_rect_property, keyword_declaration,
    keyword_declaration_of, length_declaration, property_named, property_named_by,
    rect_declaration, Property,
};
use crate::rules::{table_write, CssRules, Table};
use crate::text::{eq_ignore_ascii_case, eq_ignoring_ascii_case};
use crate::types::{rgba, BorderRadius, CssColor, Declaration, Length, Number, Rgba, UiRect};
use vstd::prelude::*;
use vstd::string::*;

verus! {

/// A token sequence, each token with its source text.
pub type Tokens = Seq<(CssToken, Seq<char>)>;

pub open spec fn views(v: Seq<Lexeme>) -> Tokens {
    v.map_values(|l: Lexeme| l@)
}

#[derive(Clone, Copy, Debug, PartialEq, Eq, Structural)]
pub enum ParseErrorKind {
    /// A token of the expected kind with a value that is not supported.
    InvalidToken,
    /// A token of the wrong kind.
    UnexpectedToken,
    /// The input ended where a token was expected.
    EndOfInput,
}

/// A parse error and the index of the token where it was found.
#[derive(Clone, Copy, Debug, PartialEq, Eq, Structural)]
pub struct ParseError {
    pub kind: ParseErrorKind,
    pub position: usize,
}

pub open spec fn error_at<T>(kind: ParseErrorKind, pos: int) -> Result<T, ParseError> {
    Err(ParseError { kind, position: pos as usize })
}

/// An exec outcome `r` is the spec outcome `s`, positions compared as integers.
pub open spec fn same_outcome<T>(
    r: Result<(T, usize), ParseError>,
    s: Result<(T, int), ParseError>,
) -> bool {
    match r {
        Ok((v, e)) => s == Ok::<(T, int), ParseError>((v, e as int)),
        Err(x) => s == Err::<(T, int), ParseError>(x),
    }
}

/// The first position at or after `pos` that holds no whitespace or comment.
pub open spec fn skip_trivia(ts: Tokens, pos: int) -> int
    decreases ts.len() - pos,
{
    if 0 <= pos < ts.len() && is_trivia(ts[pos]) {
        skip_trivia(ts, pos + 1)
    } else {
        pos
    }
}

pub fn skip_trivia_at(toks: &Vec<Lexeme>, pos: usize) -> (r: usize)
    requires
        pos <= toks.len(),
    ensures
        r as int == skip_trivia(views(toks@), pos as int),
        pos <= r <= toks.len(),
{
    let mut p = pos;
    while p < toks.len() && toks[p].is_trivia()
        invariant
            pos <= p <= toks.len(),
            skip_trivia(views(toks@), p as int) == skip_trivia(views(toks@), pos as int),
        decreases toks.len() - p,
    {
        p += 1;
    }
    p
}

/// Decodes one length at `pos`: `12px` or a bare number is pixels, `50%` a percentage,
/// `auto` and `undefined` the keywords; any other unit or word is an invalid token.
pub open spec fn value_at(ts: Tokens, pos: int) -> Result<(Length, int), ParseError> {
    let p = skip_trivia(ts, pos);
    if p >= ts.len() {
        error_at(ParseErrorKind::EndOfInput, p)
    } else {
        match ts[p].0 {
            CssToken::Dimension(v, unit) => if eq_ignoring_ascii_case(unit@, "px"@) {
                Ok((Length::Px(Number { bits: v }), p + 1))
            } else {
                error_at(ParseErrorKind::InvalidToken, p)
            },
            CssToken::Number(v) => Ok((Length::Px(Number { bits: v }), p + 1)),
            CssToken::Percentage(v) => Ok((Length::Percent(Number { bits: v }), p + 1)),
            CssToken::Ident(w) => if eq_ignoring_ascii_case(w@, "auto"@) {
                Ok((Length::Auto, p + 1))
            } else if eq_ignoring_ascii_case(w@, "undefined"@) {
                Ok((Length::Undefined, p + 1))
            } else {
                error_at(ParseErrorKind::InvalidToken, p)
            },
            _ => error_at(ParseErrorKind::UnexpectedToken, p),
        }
    }
}

pub fn parse_value(toks: &Vec<Lexeme>, pos: usize) -> (r: Result<(Length, usize), ParseError>)
    requires
        pos <= toks.len(),
    ensures
        same_outcome(r, value_at(views(toks@), pos as int)),
        r matches Ok((_, e)) ==> pos < e <= toks.len(),
        r matches Err(e) ==> pos <= e.position <= toks.len(),
{
    let p = skip_trivia_at(toks, pos);
    if p >= toks.len() {
        return Err(ParseError { kind: ParseErrorKind::EndOfInput, position: p });
    }
    let invalid = Err(ParseError { kind: ParseErrorKind::InvalidToken, position: p });
    match &toks[p].token {
        CssToken::Dimension(v, unit) => {
            if eq_ignore_ascii_case(unit.as_str(), "px") {
                Ok((Length::Px(Number { bits: *v }), p + 1))
            } else {
                invalid
            }
        },
        CssToken::Number(v) => Ok((Length::Px(Number { bits: *v }), p + 1)),
        CssToken::Percentage(v) => Ok((Length::Percent(Number { bits: *v }), p + 1)),
        CssToken::Ident(w) => {
            if eq_ignore_ascii_case(w.as_str(), "auto") {
                Ok((Length::Auto, p + 1))
            } else if eq_ignore_ascii_case(w.as_str(), "undefined") {
                Ok((Length::Undefined, p + 1))
            } else {
                invalid
            }
        },
        _ => Err(ParseError { kind: ParseErrorKind::UnexpectedToken, position: p }),
    }
}

/// The value of a hexadecimal digit, or -1.
pub open spec fn hex_digit(c: char) -> int {
    if '0' <= c && c <= '9' {
        (c as u32) - ('0' as u32)
    } else if 'a' <= c && c <= 'f' {
        (c as u32) - ('a' as u32) + 10
    } else if 'A' <= c && c <= 'F' {
        (c as u32) - ('A' as u32) + 10
    } else {
        -1
    }
}

/// The byte written by the two hexadecimal digits at `i`.
pub open spec fn hex_byte(s: Seq<char>, i: int) -> u8 {
    (hex_digit(s[i]) * 16 + hex_digit(s[i + 1])) as u8
}

/// Six digits give red, green and blue with full alpha; eight digits add alpha.
pub open spec fn hex_color(s: Seq<char>) -> Option<Rgba> {
    if !(forall|i: int| 0 <= i < s.len() ==> hex_digit(#[trigger] s[i]) >= 0) {
        None
    } else if s.len() == 6 {
        Some(rgba(hex_byte(s, 0), hex_byte(s, 2), hex_byte(s, 4), 255))
    } else if s.len() == 8 {
        Some(rgba(hex_byte(s, 0), hex_byte(s, 2), hex_byte(s, 4), hex_byte(s, 6)))
    } else {
        None
    }
}

fn hex_digit_value(c: char) -> (r: u8)
    requires
        hex_digit(c) >= 0,
    ensures
        r as int == hex_digit(c),
        r < 16,
{
    if '0' <= c && c <= '9' {
        ((c as u32) - ('0' as u32)) as u8
    } else if 'a' <= c && c <= 'f' {
        ((c as u32) - ('a' as u32) + 10) as u8
    } else {
        ((c as u32) - ('A' as u32) + 10) as u8
    }
}

fn is_hex_digit(c: char) -> (r: bool)
    ensures
        r == (hex_digit(c) >= 0),
{
    ('0' <= c && c <= '9') || ('a' <= c && c <= 'f') || ('A' <= c && c <= 'F')
}

fn hex_byte_at(s: &str, i: usize) -> (r: u8)
    requires
        i < 8,
        i + 1 < s@.len(),
        hex_digit(s@[i as int]) >= 0,
        hex_digit(s@[i + 1]) >= 0,
    ensures
        r == hex_byte(s@, i as int),
{
    let high = hex_digit_value(s.get_char(i));
    let low = hex_digit_value(s.get_char(i + 1));
    high * 16 + low
}

/// Decodes the digits of a hash token as a color.
pub fn decode_hex_color(s: &str) -> (r: Option<Rgba>)
    ensures
        r == hex_color(s@),
{
    let n = s.unicode_len();
    let mut i: usize = 0;
    while i < n
        invariant
            n == s@.len(),
            i <= n,
            forall|j: int| 0 <= j < i ==> hex_digit(#[trigger] s@[j]) >= 0,
        decreases n - i,
    {
        if !is_hex_digit(s.get_char(i)) {
            return None;
        }
        i += 1;
    }
    if n == 6 {
        Some(Rgba { red: hex_byte_at(s, 0), green: hex_byte_at(s, 2), blue: hex_byte_at(s, 4), alpha: 255 })
    } else if n == 8 {
        Some(
            Rgba {
                red: hex_byte_at(s, 0),
                green: hex_byte_at(s, 2),
                blue: hex_byte_at(s, 4),
                alpha: hex_byte_at(s, 6),
            },
        )
    } else {
        None
    }
}

/// The color keywords: red, green, blue, white, black and transparent.
pub open spec fn color_keyword(w: Seq<char>) -> Option<CssColor> {
    if eq_ignoring_ascii_case(w, "red"@) {
        Some(CssColor::Red)
    } else if eq_ignoring_ascii_case(w, "green"@) {
        Some(CssColor::Green)
    } else if eq_ignoring_ascii_case(w, "blue"@) {
        Some(CssColor::Blue)
    } else if eq_ignoring_ascii_case(w, "white"@) {
        Some(CssColor::White)
    } else if eq_ignoring_ascii_case(w, "black"@) {
        Some(CssColor::Black)
    } else if eq_ignoring_ascii_case(w, "transparent"@) {
        Some(CssColor::Transparent)
    } else {
        None
    }
}

fn color_keyword_of(w: &str) -> (r: Option<CssColor>)
    ensures
        r == color_keyword(w@),
{
    if eq_ignore_ascii_case(w, "red") {
        Some(CssColor::Red)
    } else if eq_ignore_ascii_case(w, "green") {
        Some(CssColor::Green)
    } else if eq_ignore_ascii_case(w, "blue") {
        Some(CssColor::Blue)
    } else if eq_ignore_ascii_case(w, "white") {
        Some(CssColor::White)
    } else if eq_ignore_ascii_case(w, "black") {
        Some(CssColor::Black)
    } else if eq_ignore_ascii_case(w, "transparent") {
        Some(CssColor::Transparent)
    } else {
        None
    }
}

/// Decodes one color at `pos`: a keyword, or a hash of six or eight hexadecimal digits.
pub open spec fn color_at(ts: Tokens, pos: int) -> Result<(CssColor, int), ParseError> {
    let p = skip_trivia(ts, pos);
    if p >= ts.len() {
        error_at(ParseErrorKind::EndOfInput, p)
    } else {
        match ts[p].0 {
            CssToken::Ident(w) => match color_keyword(w@) {
                Some(c) => Ok((c, p + 1)),
                None => error_at(ParseErrorKind::InvalidToken, p),
            },
            CssToken::Hash(h) => match hex_color(h@) {
                Some(c) => Ok((CssColor::Hex(c), p + 1)),
                None => error_at(ParseErrorKind::InvalidToken, p),
            },
            _ => error_at(ParseErrorKind::UnexpectedToken, p),
        }
    }
}

pub fn parse_color(toks: &Vec<Lexeme>, pos: usize) -> (r: Result<(CssColor, usize), ParseError>)
    requires
        pos <= toks.len(),
    ensures
        same_outcome(r, color_at(views(toks@), pos as int)),
        r matches Ok((_, e)) ==> pos < e <= toks.len(),
        r matches Err(e) ==> pos <= e.position <= toks.len(),
{
    let p = skip_trivia_at(toks, pos);
    if p >= toks.len() {
        return Err(ParseError { kind: ParseErrorKind::EndOfInput, position: p });
    }
    let invalid = Err(ParseError { kind: ParseErrorKind::InvalidToken, position: p });
    match &toks[p].token {
        CssToken::Ident(w) => match color_keyword_of(w.as_str()) {
            Some(c) => Ok((c, p + 1)),
            None => invalid,
        },
        CssToken::Hash(h) => match decode_hex_color(h.as_str()) {
            Some(c) => Ok((CssColor::Hex(c), p + 1)),
            None => invalid,
        },
        _ => Err(ParseError { kind: ParseErrorKind::UnexpectedToken, position: p }),
    }
}

/// Decodes one to four lengths as box edges: one gives all edges; two give top and
/// bottom, then left and right; three give top, left and right, bottom; four give top,
/// right, bottom, left. Each length after the first is tried and, where it fails, not
/// consumed.
pub open spec fn rect_at(ts: Tokens, pos: int) -> Result<(UiRect, int), ParseError> {
    match value_at(ts, pos) {
        Err(e) => Err(e),
        Ok((a, p1)) => match value_at(ts, p1) {
            Err(_) => Ok((UiRect { left: a, right: a, top: a, bottom: a }, p1)),
            Ok((b, p2)) => match value_at(ts, p2) {
                Err(_) => Ok((UiRect { left: b, right: b, top: a, bottom: a }, p2)),
                Ok((c, p3)) => match value_at(ts, p3) {
                    Err(_) => Ok((UiRect { left: b, right: b, top: a, bottom: c }, p3)),
                    Ok((d, p4)) => Ok((UiRect { left: d, right: b, top: a, bottom: c }, p4)),
                },
            },
        },
    }
}

pub fn parse_ui_rect(toks: &Vec<Lexeme>, pos: usize) -> (r: Result<(UiRect, usize), ParseError>)
    requires
        pos <= toks.len(),
    ensures
        same_outcome(r, rect_at(views(toks@), pos as int)),
        r matches Ok((_, e)) ==> pos < e <= toks.len(),
        r matches Err(e) ==> pos <= e.position <= toks.len(),
{
    let (a, p1) = match parse_value(toks, pos) {
        Err(e) => return Err(e),
        Ok(v) => v,
    };
    let (b, p2) = match parse_value(toks, p1) {
        Err(_) => return Ok((UiRect::all(a), p1)),
        Ok(v) => v,
    };
    let (c, p3) = match parse_value(toks, p2) {
        Err(_) => return Ok((UiRect { left: b, right: b, top: a, bottom: a }, p2)),
        Ok(v) => v,
    };
    match parse_value(toks, p3) {
        Err(_) => Ok((UiRect { left: b, right: b, top: a, bottom: c }, p3)),
        Ok((d, p4)) => Ok((UiRect { left: d, right: b, top: a, bottom: c }, p4)),
    }
}


/// Decodes the value of `prop` at `pos`.
pub open spec fn declaration_value(ts: Tokens, pos: int, prop: Property) -> Result<
    (Declaration, int),
    ParseError,
> {
    let p = skip_trivia(ts, pos);
    if is_rect_property(prop) {
        match rect_at(ts, pos) {
            Err(e) => Err(e),
            Ok((r, e)) => Ok((rect_declaration(prop, r)->0, e)),
        }
    } else if is_length_property(prop) {
        match value_at(ts, pos) {
            Err(e) => Err(e),
            Ok((v, e)) => Ok((length_declaration(prop, v)->0, e)),
        }
    } else if prop is Color || prop is BackgroundColor {
        match color_at(ts, pos) {
            Err(e) => Err(e),
            Ok((c, e)) => if prop is Color {
                Ok((Declaration::Color(c), e))
            } else {
                Ok((Declaration::BackgroundColor(c), e))
            },
        }
    } else if p >= ts.len() {
        error_at(ParseErrorKind::EndOfInput, p)
    } else if is_keyword_property(prop) {
        match ts[p].0 {
            CssToken::Ident(w) => match keyword_declaration(prop, w@) {
                Some(d) => Ok((d, p + 1)),
                None => error_at(ParseErrorKind::InvalidToken, p),
            },
            _ => error_at(ParseErrorKind::UnexpectedToken, p),
        }
    } else if prop is AspectRatio {
        match ts[p].0 {
            CssToken::Number(v) => Ok((Declaration::AspectRatio(Number { bits: v }), p + 1)),
            _ => error_at(ParseErrorKind::UnexpectedToken, p),
        }
    } else {
        match ts[p].0 {
            CssToken::Ident(s) => Ok((Declaration::CustomProperty(s), p + 1)),
            CssToken::QuotedString(s) => Ok((Declaration::CustomProperty(s), p + 1)),
            _ => error_at(ParseErrorKind::UnexpectedToken, p),
        }
    }
}

fn parse_declaration_value(toks: &Vec<Lexeme>, pos: usize, prop: Property) -> (r: Result<
    (Declaration, usize),
    ParseError,
>)
    requires
        pos <= toks.len(),
    ensures
        same_outcome(r, declaration_value(views(toks@), pos as int, prop)),
        r matches Ok((_, e)) ==> pos < e <= toks.len(),
        r matches Err(e) ==> pos <= e.position <= toks.len(),
{
    match prop {
        Property::Position | Property::Margin | Property::Padding | Property::Border
        | Property::BorderRadius => {
            let (r, e) = match parse_ui_rect(toks, pos) {
                Err(e) => return Err(e),
                Ok(v) => v,
            };
            let d = match prop {
                Property::Position => Declaration::Position(r),
                Property::Margin => Declaration::Margin(r),
                Property::Padding => Declaration::Padding(r),
                Property::Border => Declaration::Border(r),
                _ => Declaration::BorderRadius(
                    BorderRadius {
                        top_left: r.top,
                        top_right: r.right,
                        bottom_right: r.bottom,
                        bottom_left: r.left,
                    },
                ),
            };
            return Ok((d, e));
        },
        Property::Width | Property::Height | Property::MinWidth | Property::MaxWidth
        | Property::MinHeight | Property::MaxHeight | Property::FontSize => {
            let (v, e) = match parse_value(toks, pos) {
                Err(e) => return Err(e),
                Ok(v) => v,
            };
            let d = match prop {
                Property::Width => Declaration::Width(v),
                Property::Height => Declaration::Height(v),
                Property::MinWidth => Declaration::MinWidth(v),
                Property::MaxWidth => Declaration::MaxWidth(v),
                Property::MinHeight => Declaration::MinHeight(v),
                Property::MaxHeight => Declaration::MaxHeight(v),
                _ => Declaration::FontSize(v),
            };
            return Ok((d, e));
        },
        Property::Color | Property::BackgroundColor => {
            let (c, e) = match parse_color(toks, pos) {
                Err(e) => return Err(e),
                Ok(v) => v,
            };
            return match prop {
                Property::Color => Ok((Declaration::Color(c), e)),
                _ => Ok((Declaration::BackgroundColor(c), e)),
            };
        },
        _ => {},
    }
    let p = skip_trivia_at(toks, pos);
    if p >= toks.len() {
        return Err(ParseError { kind: ParseErrorKind::EndOfInput, position: p });
    }
    let unexpected = Err(ParseError { kind: ParseErrorKind::UnexpectedToken, position: p });
    match prop {
        Property::AspectRatio => match &toks[p].token {
            CssToken::Number(v) => Ok((Declaration::AspectRatio(Number { bits: *v }), p + 1)),
            _ => unexpected,
        },
        Property::CustomProperty => match &toks[p].token {
            CssToken::Ident(s) => Ok((Declaration::CustomProperty(s.clone()), p + 1)),
            CssToken::QuotedString(s) => Ok((Declaration::CustomProperty(s.clone()), p + 1)),
            _ => unexpected,
        },
        _ => match &toks[p].token {
            CssToken::Ident(w) => match keyword_declaration_of(prop, w.as_str()) {
                Some(d) => Ok((d, p + 1)),
                None => Err(ParseError { kind: ParseErrorKind::InvalidToken, position: p }),
            },
            _ => unexpected,
        },
    }
}

/// Where an unknown declaration ends: just past the next semicolon at or after `pos`,
/// or at the next closing brace, or at the end.
pub open spec fn declaration_end(ts: Tokens, pos: int) -> int {
    let b = boundary(ts, pos);
    if 0 <= b < ts.len() && is_punct(ts[b], ';') {
        b + 1
    } else {
        b
    }
}

fn find_declaration_end(toks: &Vec<Lexeme>, pos: usize) -> (r: usize)
    requires
        pos <= toks.len(),
    ensures
        r as int == declaration_end(views(toks@), pos as int),
        pos <= r <= toks.len(),
{
    let b = next_boundary(toks, pos);
    if b < toks.len() && toks[b].is_punct(';') {
        b + 1
    } else {
        b
    }
}

/// Parses one declaration at `pos`: a property name, a colon and the property's value.
/// A closing brace where a name is expected is the normal end of a rule: it is consumed
/// and gives `None`. A name that no property has gives `None` too, with its value
/// skipped up to the next semicolon (consumed) or closing brace (left for the rule).
pub open spec fn declaration_at(ts: Tokens, pos: int) -> Result<(Option<Declaration>, int), ParseError> {
    let p = skip_trivia(ts, pos);
    if p >= ts.len() {
        error_at(ParseErrorKind::EndOfInput, p)
    } else if is_punct(ts[p], '}') {
        Ok((None, p + 1))
    } else {
        match ts[p].0 {
            CssToken::Ident(name) => {
                let q = skip_trivia(ts, p + 1);
                if q >= ts.len() {
                    error_at(ParseErrorKind::EndOfInput, q)
                } else if !is_punct(ts[q], ':') {
                    error_at(ParseErrorKind::UnexpectedToken, q)
                } else {
                    match property_named(name@) {
                        None => Ok((None, declaration_end(ts, q + 1))),
                        Some(prop) => match declaration_value(ts, q + 1, prop) {
                            Err(e) => Err(e),
                            Ok((d, e)) => Ok((Some(d), e)),
                        },
                    }
                }
            },
            _ => error_at(ParseErrorKind::UnexpectedToken, p),
        }
    }
}

pub fn parse_rule(toks: &Vec<Lexeme>, pos: usize) -> (r: Result<(Option<Declaration>, usize), ParseError>)
    requires
        pos <= toks.len(),
    ensures
        same_outcome(r, declaration_at(views(toks@), pos as int)),
        r matches Ok((_, e)) ==> pos < e <= toks.len(),
        r matches Err(e) ==> pos <= e.position <= toks.len(),
{
    let p = skip_trivia_at(toks, pos);
    if p >= toks.len() {
        return Err(ParseError { kind: ParseErrorKind::EndOfInput, position: p });
    }
    if toks[p].is_punct('}') {
        return Ok((None, p + 1));
    }
    match &toks[p].token {
        CssToken::Ident(name) => {
            let q = skip_trivia_at(toks, p + 1);
            if q >= toks.len() {
                return Err(ParseError { kind: ParseErrorKind::EndOfInput, position: q });
            }
            if !toks[q].is_punct(':') {
                return Err(ParseError { kind: ParseErrorKind::UnexpectedToken, position: q });
            }
            match property_named_by(name.as_str()) {
                None => Ok((None, find_declaration_end(toks, q + 1))),
                Some(prop) => match parse_declaration_value(toks, q + 1, prop) {
                    Err(e) => Err(e),
                    Ok((d, e)) => Ok((Some(d), e)),
                },
            }
        },
        _ => Err(ParseError { kind: ParseErrorKind::UnexpectedToken, position: p }),
    }
}


/// A semicolon or a closing brace: where a declaration ends.
pub open spec fn is_boundary(l: (CssToken, Seq<char>)) -> bool {
    is_punct(l, ';') || is_punct(l, '}')
}

/// The first position at or after `pos` that ends a declaration, or the end.
pub open spec fn boundary(ts: Tokens, pos: int) -> int
    decreases ts.len() - pos,
{
    if pos >= ts.len() {
        ts.len() as int
    } else if 0 <= pos && !is_boundary(ts[pos]) {
        boundary(ts, pos + 1)
    } else {
        pos
    }
}

fn next_boundary(toks: &Vec<Lexeme>, pos: usize) -> (r: usize)
    requires
        pos <= toks.len(),
    ensures
        r as int == boundary(views(toks@), pos as int),
        pos <= r <= toks.len(),
{
    let mut p = pos;
    while p < toks.len() && !(toks[p].is_punct(';') || toks[p].is_punct('}'))
        invariant
            pos <= p <= toks.len(),
            boundary(views(toks@), p as int) == boundary(views(toks@), pos as int),
        decreases toks.len() - p,
    {
        p += 1;
    }
    p
}

/// Scans a rule body from `pos` for selector `sel`, starting from table `t`: every
/// declaration that decodes is written to the entry of `sel`, and what follows its value
/// is skipped up to the next semicolon or closing brace; one that fails is skipped the
/// same way; one that names an unknown property continues where the declaration parser
/// ended it. The body ends when the declaration parser consumes its closing brace, or
/// at the end of input. Gives the table and the position
/// after the body.
pub open spec fn rule_body(ts: Tokens, pos: int, sel: Seq<char>, t: Table) -> (Table, int)
    decreases ts.len() - pos,
{
    let p = skip_trivia(ts, pos);
    if p >= ts.len() || p < pos {
        (t, ts.len() as int)
    } else if is_punct(ts[p], ';') {
        rule_body(ts, p + 1, sel, t)
    } else {
        match declaration_at(ts, p) {
            Err(e) => if e.kind is EndOfInput {
                (t, ts.len() as int)
            } else if p < boundary(ts, e.position as int) <= ts.len() {
                rule_body(ts, boundary(ts, e.position as int), sel, t)
            } else {
                (t, ts.len() as int)
            },
            Ok((None, e)) => if is_punct(ts[p], '}') {
                (t, e)
            } else if p < e <= ts.len() {
                rule_body(ts, e, sel, t)
            } else {
                (t, ts.len() as int)
            },
            Ok((Some(d), e)) => if p < boundary(ts, e) <= ts.len() {
                rule_body(ts, boundary(ts, e), sel, table_write(t, sel, d))
            } else {
                (table_write(t, sel, d), ts.len() as int)
            },
        }
    }
}

fn parse_rule_body(toks: &Vec<Lexeme>, pos: usize, sel: &String, rules: &mut CssRules) -> (end:
    usize)
    requires
        pos <= toks.len(),
    ensures
        (final(rules)@, end as int) == rule_body(views(toks@), pos as int, sel@, old(rules)@),
        end <= toks.len(),
{
    let mut at = pos;
    loop
        invariant
            at <= toks.len(),
            rule_body(views(toks@), at as int, sel@, rules@) == rule_body(
                views(toks@),
                pos as int,
                sel@,
                old(rules)@,
            ),
        decreases toks.len() - at,
    {
        let p = skip_trivia_at(toks, at);
        if p >= toks.len() {
            return toks.len();
        }
        if toks[p].is_punct(';') {
            at = p + 1;
            continue;
        }
        let stop = match parse_rule(toks, p) {
            Err(e) => {
                if e.kind == ParseErrorKind::EndOfInput {
                    return toks.len();
                }
                e.position
            },
            Ok((None, e)) => {
                if toks[p].is_punct('}') {
                    return e;
                }
                at = e;
                continue;
            },
            Ok((Some(d), e)) => {
                rules.write(sel, d);
                e
            },
        };
        let next = next_boundary(toks, stop);
        if next <= p {
            return toks.len();
        }
        at = next;
    }
}

/// The first position at or after `pos` that holds an opening or closing brace, or the end.
pub open spec fn prelude_end(ts: Tokens, pos: int) -> int
    decreases ts.len() - pos,
{
    if 0 <= pos < ts.len() && !is_punct(ts[pos], '{') && !is_punct(ts[pos], '}') {
        prelude_end(ts, pos + 1)
    } else {
        pos
    }
}

fn find_prelude_end(toks: &Vec<Lexeme>, pos: usize) -> (r: usize)
    requires
        pos <= toks.len(),
    ensures
        r as int == prelude_end(views(toks@), pos as int),
        pos <= r <= toks.len(),
{
    let mut p = pos;
    while p < toks.len() && !toks[p].is_punct('{') && !toks[p].is_punct('}')
        invariant
            pos <= p <= toks.len(),
            prelude_end(views(toks@), p as int) == prelude_end(views(toks@), pos as int),
        decreases toks.len() - p,
    {
        p += 1;
    }
    p
}

/// What a token adds to a selector: nothing for a comment, one space for whitespace,
/// the contents of a quoted string, and the source text of anything else.
pub open spec fn selector_piece(l: (CssToken, Seq<char>)) -> Seq<char> {
    if is_comment(l) {
        seq![]
    } else if is_space(l) {
        seq![' ']
    } else {
        match l.0 {
            CssToken::QuotedString(s) => s@,
            _ => l.1,
        }
    }
}

/// The selector written by the tokens from `a` up to `b`.
pub open spec fn selector_text(ts: Tokens, a: int, b: int) -> Seq<char>
    decreases b - a,
{
    if a < b {
        selector_piece(ts[a]) + selector_text(ts, a + 1, b)
    } else {
        seq![]
    }
}

/// The end of the tokens from `a` up to `b` once trailing whitespace and comments are
/// left out.
pub open spec fn trim_trivia_end(ts: Tokens, a: int, b: int) -> int
    decreases b - a,
{
    if a < b && b <= ts.len() && is_trivia(ts[b - 1]) {
        trim_trivia_end(ts, a, b - 1)
    } else {
        b
    }
}

fn trim_trivia_end_at(toks: &Vec<Lexeme>, a: usize, b: usize) -> (r: usize)
    requires
        a <= b <= toks.len(),
    ensures
        r as int == trim_trivia_end(views(toks@), a as int, b as int),
        a <= r <= b,
{
    let mut e = b;
    while a < e && toks[e - 1].is_trivia()
        invariant
            a <= e <= b <= toks.len(),
            trim_trivia_end(views(toks@), a as int, e as int) == trim_trivia_end(
                views(toks@),
                a as int,
                b as int,
            ),
        decreases e,
    {
        e -= 1;
    }
    e
}

fn read_selector(toks: &Vec<Lexeme>, a: usize, b: usize) -> (r: String)
    requires
        a <= b <= toks.len(),
    ensures
        r@ == selector_text(views(toks@), a as int, b as int),
{
    let mut s = String::new();
    let mut i = a;
    while i < b
        invariant
            a <= i <= b <= toks.len(),
            s@ + selector_text(views(toks@), i as int, b as int) == selector_text(
                views(toks@),
                a as int,
                b as int,
            ),
        decreases b - i,
    {
        let l = &toks[i];
        let ghost before = s@;
        if l.is_comment() {
        } else if l.is_space() {
            proof {
                reveal_strlit(" ");
            }
            s.append(" ");
        } else {
            match &l.token {
                CssToken::QuotedString(q) => s.append(q.as_str()),
                _ => s.append(l.text.as_str()),
            }
        }
        assert(before + selector_text(views(toks@), i as int, b as int) =~= s@ + selector_text(
            views(toks@),
            i + 1,
            b as int,
        ));
        i += 1;
    }
    assert(selector_text(views(toks@), i as int, b as int) =~= seq![]);
    assert(s@ + seq![] =~= s@);
    s
}

/// The position after the next closing brace at or after `pos`, or the end.
pub open spec fn after_close(ts: Tokens, pos: int) -> int
    decreases ts.len() - pos,
{
    if pos >= ts.len() {
        ts.len() as int
    } else if 0 <= pos && !is_punct(ts[pos], '}') {
        after_close(ts, pos + 1)
    } else {
        pos + 1
    }
}

fn skip_past_close(toks: &Vec<Lexeme>, pos: usize) -> (r: usize)
    requires
        pos <= toks.len(),
    ensures
        r as int == after_close(views(toks@), pos as int),
        pos <= r <= toks.len(),
{
    let mut p = pos;
    while p < toks.len() && !toks[p].is_punct('}')
        invariant
            pos <= p <= toks.len(),
            after_close(views(toks@), p as int) == after_close(views(toks@), pos as int),
        decreases toks.len() - p,
    {
        p += 1;
    }
    if p < toks.len() {
        p + 1
    } else {
        p
    }
}

/// Scans a style sheet from `pos`, starting from table `t`. At the top level
/// whitespace, comments, semicolons and closing braces are passed over, and an at-rule
/// is skipped up to and including the next closing brace. Anything else starts a rule:
/// the tokens up to the next brace, without trailing whitespace, are its selector, and
/// where that brace opens a body the body's declarations go to the selector's entry. A
/// rule whose selector is empty is skipped whole.
pub open spec fn sheet_from(ts: Tokens, pos: int, t: Table) -> Table
    decreases ts.len() - pos,
{
    let p = skip_trivia(ts, pos);
    if p >= ts.len() || p < pos {
        t
    } else if ts[p].0 is AtKeyword {
        if p < after_close(ts, p + 1) <= ts.len() {
            sheet_from(ts, after_close(ts, p + 1), t)
        } else {
            t
        }
    } else if is_punct(ts[p], '}') || is_punct(ts[p], ';') {
        sheet_from(ts, p + 1, t)
    } else {
        let e = prelude_end(ts, p);
        if e >= ts.len() || e < p {
            t
        } else if is_punct(ts[e], '}') {
            sheet_from(ts, e + 1, t)
        } else if selector_text(ts, p, trim_trivia_end(ts, p, e)).len() == 0 {
            if p < after_close(ts, e + 1) <= ts.len() {
                sheet_from(ts, after_close(ts, e + 1), t)
            } else {
                t
            }
        } else {
            let (t2, q) = rule_body(ts, e + 1, selector_text(ts, p, trim_trivia_end(ts, p, e)), t);
            if p < q <= ts.len() {
                sheet_from(ts, q, t2)
            } else {
                t2
            }
        }
    }
}

/// The table that a style sheet's text gives when added to `t`.
pub open spec fn stylesheet_table(css: Seq<char>, t: Table) -> Table {
    sheet_from(lex(css), 0, t)
}

/// Adds the rules of a token sequence to `rules`.
pub fn parse_tokens(toks: &Vec<Lexeme>, rules: &mut CssRules)
    ensures
        final(rules)@ == sheet_from(views(toks@), 0, old(rules)@),
{
    let mut at: usize = 0;
    loop
        invariant
            at <= toks.len(),
            sheet_from(views(toks@), at as int, rules@) == sheet_from(views(toks@), 0, old(rules)@),
        decreases toks.len() - at,
    {
        let p = skip_trivia_at(toks, at);
        if p >= toks.len() {
            return;
        }
        if matches!(toks[p].token, CssToken::AtKeyword) {
            at = skip_past_close(toks, p + 1);
            continue;
        }
        if toks[p].is_punct('}') || toks[p].is_punct(';') {
            at = p + 1;
            continue;
        }
        let e = find_prelude_end(toks, p);
        if e >= toks.len() {
            return;
        }
        if toks[e].is_punct('}') {
            at = e + 1;
            continue;
        }
        let selector = read_selector(toks, p, trim_trivia_end_at(toks, p, e));
        if selector.as_str().is_empty() {
            at = skip_past_close(toks, e + 1);
            continue;
        }
        let q = parse_rule_body(toks, e + 1, &selector, rules);
        if q <= p {
            return;
        }
        at = q;
    }
}

/// Adds the rules of style-sheet text `css` to `rules`. Declarations that fail to
/// decode, unknown properties and at-rules are skipped; nothing aborts the sheet.
pub fn parse_stylesheet(css: &str, rules: &mut CssRules)
    ensures
        final(rules)@ == stylesheet_table(css@, old(rules)@),
{
    let toks = tokenize(css);
    assert(views(toks@) == lex(css@));
    parse_tokens(&toks, rules);
}

} // verus!
