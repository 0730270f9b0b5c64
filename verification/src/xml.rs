//! A verified lexer and structural checker for the XML subset that the
//! foreign engine emits.
//!
//! The metadata vocabulary carries all its data in element attributes,
//! so the lexer reduces a document to a flat stream of open and close
//! tags; text content, comments, CDATA sections and processing
//! instructions are skipped.  Attribute values are unescaped (the five
//! predefined entities); any other entity reference is malformed.  The
//! structural check demands properly nested, name-matched tags with a
//! single root element.
//!
//! Every executable function is pinned to a spec-level twin, so a
//! document has exactly one token stream.

use vstd::prelude::*;
use vstd::string::StrSliceExecFns;
use vstd::string::StringExecFns;

verus! {

/// One attribute of an open tag, with its value already unescaped.
pub struct XmlAttr {
    pub name: String,
    pub value: String,
}

/// Mathematical image of an attribute.
pub struct SpecXmlAttr {
    pub name: Seq<char>,
    pub value: Seq<char>,
}

impl DeepView for XmlAttr {
    type V = SpecXmlAttr;

    open spec fn deep_view(&self) -> SpecXmlAttr {
        SpecXmlAttr { name: self.name@, value: self.value@ }
    }
}

/// One tag of a lexed document.
pub enum XmlTok {
    Open { name: String, attrs: Vec<XmlAttr>, self_closing: bool },
    Close { name: String },
}

/// Mathematical image of a tag.
pub enum SpecXmlTok {
    Open { name: Seq<char>, attrs: Seq<SpecXmlAttr>, self_closing: bool },
    Close { name: Seq<char> },
}

impl DeepView for XmlTok {
    type V = SpecXmlTok;

    open spec fn deep_view(&self) -> SpecXmlTok {
        match self {
            XmlTok::Open { name, attrs, self_closing } => SpecXmlTok::Open {
                name: name@,
                attrs: attrs.deep_view(),
                self_closing: *self_closing,
            },
            XmlTok::Close { name } => SpecXmlTok::Close { name: name@ },
        }
    }
}

/// XML whitespace.
pub open spec fn is_ws_char(c: char) -> bool {
    c == ' ' || c == '\t' || c == '\r' || c == '\n'
}

/// A character that may stand in an element or attribute name.
pub open spec fn is_name_char(c: char) -> bool {
    !is_ws_char(c) && c != '<' && c != '>' && c != '/' && c != '=' && c != '"' && c != '\''
        && c != '?' && c != '!'
}

/// The first position at or after `pos` whose character is not whitespace.
pub open spec fn skip_ws_at(s: Seq<char>, pos: int) -> int
    decreases s.len() - pos when 0 <= pos <= s.len()
{
    if pos >= s.len() {
        pos
    } else if is_ws_char(s[pos]) {
        skip_ws_at(s, pos + 1)
    } else {
        pos
    }
}

/// Scans past whitespace, starting at `pos`.
fn skip_ws(s: &str, pos: usize) -> (r: usize)
    requires
        pos <= s@.len(),
    ensures
        r == skip_ws_at(s@, pos as int),
        pos <= r <= s@.len(),
{
    let n = s.unicode_len();
    let mut i: usize = pos;
    while i < n
        invariant
            pos <= i <= n,
            n == s@.len(),
            skip_ws_at(s@, pos as int) == skip_ws_at(s@, i as int),
        decreases n - i,
    {
        let c = s.get_char(i);
        if !(c == ' ' || c == '\t' || c == '\r' || c == '\n') {
            return i;
        }
        i += 1;
    }
    i
}

/// The first position at or after `pos` whose character is not a name
/// character.
pub open spec fn name_end_at(s: Seq<char>, pos: int) -> int
    decreases s.len() - pos when 0 <= pos <= s.len()
{
    if pos >= s.len() {
        pos
    } else if is_name_char(s[pos]) {
        name_end_at(s, pos + 1)
    } else {
        pos
    }
}

/// Scans past name characters, starting at `pos`.
fn name_end(s: &str, pos: usize) -> (r: usize)
    requires
        pos <= s@.len(),
    ensures
        r == name_end_at(s@, pos as int),
        pos <= r <= s@.len(),
{
    let n = s.unicode_len();
    let mut i: usize = pos;
    while i < n
        invariant
            pos <= i <= n,
            n == s@.len(),
            name_end_at(s@, pos as int) == name_end_at(s@, i as int),
        decreases n - i,
    {
        let c = s.get_char(i);
        if c == ' ' || c == '\t' || c == '\r' || c == '\n' || c == '<' || c == '>' || c == '/'
            || c == '=' || c == '"' || c == '\'' || c == '?' || c == '!' {
            return i;
        }
        i += 1;
    }
    i
}

/// The first position at or after `pos` holding `c`, or the length.
pub open spec fn find_char_at(s: Seq<char>, pos: int, c: char) -> int
    decreases s.len() - pos when 0 <= pos <= s.len()
{
    if pos >= s.len() {
        s.len() as int
    } else if s[pos] == c {
        pos
    } else {
        find_char_at(s, pos + 1, c)
    }
}

/// Scans for the next occurrence of `c`, starting at `pos`.
fn find_char(s: &str, pos: usize, c: char) -> (r: usize)
    requires
        pos <= s@.len(),
    ensures
        r == find_char_at(s@, pos as int, c),
        pos <= r <= s@.len(),
{
    let n = s.unicode_len();
    let mut i: usize = pos;
    while i < n
        invariant
            pos <= i <= n,
            n == s@.len(),
            find_char_at(s@, pos as int, c) == find_char_at(s@, i as int, c),
        decreases n - i,
    {
        if s.get_char(i) == c {
            return i;
        }
        i += 1;
    }
    i
}

/// The first position at or after `pos` where `a` then `b` occur, or the
/// length when there is none.
pub open spec fn find2_at(s: Seq<char>, pos: int, a: char, b: char) -> int
    decreases s.len() - pos when 0 <= pos <= s.len()
{
    if pos + 1 >= s.len() {
        s.len() as int
    } else if s[pos] == a && s[pos + 1] == b {
        pos
    } else {
        find2_at(s, pos + 1, a, b)
    }
}

/// Scans for the next occurrence of the pair `a``b`, starting at `pos`.
fn find2(s: &str, pos: usize, a: char, b: char) -> (r: usize)
    requires
        pos <= s@.len(),
    ensures
        r == find2_at(s@, pos as int, a, b),
        pos <= r <= s@.len(),
        r < s@.len() ==> r + 1 < s@.len(),
{
    let n = s.unicode_len();
    let mut i: usize = pos;
    while n - i > 1
        invariant
            pos <= i <= n,
            n == s@.len(),
            find2_at(s@, pos as int, a, b) == find2_at(s@, i as int, a, b),
        decreases n - i,
    {
        if s.get_char(i) == a && s.get_char(i + 1) == b {
            return i;
        }
        i += 1;
    }
    n
}

/// The first position at or after `pos` where `a`, `b`, `c` occur in a
/// row, or the length when there is none.
pub open spec fn find3_at(s: Seq<char>, pos: int, a: char, b: char, c: char) -> int
    decreases s.len() - pos when 0 <= pos <= s.len()
{
    if pos + 2 >= s.len() {
        s.len() as int
    } else if s[pos] == a && s[pos + 1] == b && s[pos + 2] == c {
        pos
    } else {
        find3_at(s, pos + 1, a, b, c)
    }
}

/// Scans for the next occurrence of the triple `a``b``c`, starting at `pos`.
fn find3(s: &str, pos: usize, a: char, b: char, c: char) -> (r: usize)
    requires
        pos <= s@.len(),
    ensures
        r == find3_at(s@, pos as int, a, b, c),
        pos <= r <= s@.len(),
        r < s@.len() ==> r + 2 < s@.len(),
{
    let n = s.unicode_len();
    let mut i: usize = pos;
    while n - i > 2
        invariant
            pos <= i <= n,
            n == s@.len(),
            find3_at(s@, pos as int, a, b, c) == find3_at(s@, i as int, a, b, c),
        decreases n - i,
    {
        if s.get_char(i) == a && s.get_char(i + 1) == b && s.get_char(i + 2) == c {
            return i;
        }
        i += 1;
    }
    n
}

/// Unescapes the characters of `s` between `pos` and `end`, resolving
/// the five predefined entity references; any other use of `&` is
/// malformed.
pub open spec fn unescape_at(s: Seq<char>, pos: int, end: int, acc: Seq<char>) -> Option<Seq<char>>
    decreases end - pos when 0 <= pos && pos <= end && end <= s.len()
{
    if pos >= end {
        Some(acc)
    } else if s[pos] != '&' {
        unescape_at(s, pos + 1, end, acc.push(s[pos]))
    } else if pos + 5 <= end && s[pos + 1] == 'a' && s[pos + 2] == 'm' && s[pos + 3] == 'p' && s[pos
        + 4] == ';' {
        unescape_at(s, pos + 5, end, acc.push('&'))
    } else if pos + 4 <= end && s[pos + 1] == 'l' && s[pos + 2] == 't' && s[pos + 3] == ';' {
        unescape_at(s, pos + 4, end, acc.push('<'))
    } else if pos + 4 <= end && s[pos + 1] == 'g' && s[pos + 2] == 't' && s[pos + 3] == ';' {
        unescape_at(s, pos + 4, end, acc.push('>'))
    } else if pos + 6 <= end && s[pos + 1] == 'q' && s[pos + 2] == 'u' && s[pos + 3] == 'o' && s[pos
        + 4] == 't' && s[pos + 5] == ';' {
        unescape_at(s, pos + 6, end, acc.push('"'))
    } else if pos + 6 <= end && s[pos + 1] == 'a' && s[pos + 2] == 'p' && s[pos + 3] == 'o' && s[pos
        + 4] == 's' && s[pos + 5] == ';' {
        unescape_at(s, pos + 6, end, acc.push('\''))
    } else {
        None
    }
}

/// Unescapes one attribute value.
fn unescape_value(s: &str, from: usize, end: usize) -> (r: Option<String>)
    requires
        from <= end <= s@.len(),
    ensures
        r is Some <==> unescape_at(s@, from as int, end as int, Seq::empty()) is Some,
        r matches Some(v) ==> unescape_at(s@, from as int, end as int, Seq::empty()) == Some(v@),
{
    let mut out = String::new();
    let mut i: usize = from;
    while i < end
        invariant
            from <= i <= end <= s@.len(),
            unescape_at(s@, from as int, end as int, Seq::empty()) == unescape_at(
                s@,
                i as int,
                end as int,
                out@,
            ),
        decreases end - i,
    {
        let ghost prev = out@;
        let c = s.get_char(i);
        if c != '&' {
            let piece = s.substring_char(i, i + 1);
            out.append(piece);
            proof {
                assert(out@ =~= prev.push(s@[i as int]));
            }
            i = i + 1;
        } else if end - i >= 5 && s.get_char(i + 1) == 'a' && s.get_char(i + 2) == 'm' && s.get_char(
            i + 3,
        ) == 'p' && s.get_char(i + 4) == ';' {
            out.append("&");
            proof {
                reveal_strlit("&");
                assert(out@ =~= prev.push('&'));
            }
            i = i + 5;
        } else if end - i >= 4 && s.get_char(i + 1) == 'l' && s.get_char(i + 2) == 't' && s.get_char(
            i + 3,
        ) == ';' {
            out.append("<");
            proof {
                reveal_strlit("<");
                assert(out@ =~= prev.push('<'));
            }
            i = i + 4;
        } else if end - i >= 4 && s.get_char(i + 1) == 'g' && s.get_char(i + 2) == 't' && s.get_char(
            i + 3,
        ) == ';' {
            out.append(">");
            proof {
                reveal_strlit(">");
                assert(out@ =~= prev.push('>'));
            }
            i = i + 4;
        } else if end - i >= 6 && s.get_char(i + 1) == 'q' && s.get_char(i + 2) == 'u' && s.get_char(
            i + 3,
        ) == 'o' && s.get_char(i + 4) == 't' && s.get_char(i + 5) == ';' {
            out.append("\"");
            proof {
                reveal_strlit("\"");
                assert(out@ =~= prev.push('"'));
            }
            i = i + 6;
        } else if end - i >= 6 && s.get_char(i + 1) == 'a' && s.get_char(i + 2) == 'p' && s.get_char(
            i + 3,
        ) == 'o' && s.get_char(i + 4) == 's' && s.get_char(i + 5) == ';' {
            out.append("'");
            proof {
                reveal_strlit("'");
                assert(out@ =~= prev.push('\''));
            }
            i = i + 6;
        } else {
            return None;
        }
    }
    Some(out)
}

/// Lexes the attribute list of an open tag, from `pos` up to the `>` or
/// `/` that ends it.
pub open spec fn lex_attrs_at(s: Seq<char>, pos: int, acc: Seq<SpecXmlAttr>) -> Option<
    (Seq<SpecXmlAttr>, int),
>
    decreases s.len() - pos when 0 <= pos <= s.len()
{
    let n = s.len() as int;
    let p = skip_ws_at(s, pos);
    if p >= n || p < pos {
        None
    } else if s[p] == '>' || s[p] == '/' {
        Some((acc, p))
    } else {
        let ne = name_end_at(s, p);
        if ne == p {
            None
        } else {
            let q1 = skip_ws_at(s, ne);
            if !(q1 < n && s[q1] == '=') {
                None
            } else {
                let q2 = skip_ws_at(s, q1 + 1);
                if !(q2 < n && (s[q2] == '"' || s[q2] == '\'')) {
                    None
                } else {
                    let vend = find_char_at(s, q2 + 1, s[q2]);
                    if vend >= n {
                        None
                    } else {
                        match unescape_at(s, q2 + 1, vend, Seq::empty()) {
                            None => None,
                            Some(val) => {
                                let nxt = vend + 1;
                                if nxt <= pos || nxt > n {
                                    None
                                } else {
                                    lex_attrs_at(
                                        s,
                                        nxt,
                                        acc.push(SpecXmlAttr { name: s.subrange(p, ne), value: val }),
                                    )
                                }
                            },
                        }
                    }
                }
            }
        }
    }
}

/// Lexes an attribute list.
fn lex_attrs(s: &str, pos: usize) -> (r: Option<(Vec<XmlAttr>, usize)>)
    requires
        pos <= s@.len(),
    ensures
        r is None ==> lex_attrs_at(s@, pos as int, Seq::empty()) is None,
        r matches Some((attrs, p)) ==> lex_attrs_at(s@, pos as int, Seq::empty()) == Some(
            (attrs.deep_view(), p as int),
        ) && p <= s@.len(),
{
    let n = s.unicode_len();
    let mut attrs: Vec<XmlAttr> = Vec::new();
    let mut cur: usize = pos;
    proof {
        assert(attrs.deep_view() =~= Seq::<SpecXmlAttr>::empty());
    }
    loop
        invariant
            pos <= cur <= n,
            n == s@.len(),
            lex_attrs_at(s@, pos as int, Seq::empty()) == lex_attrs_at(
                s@,
                cur as int,
                attrs.deep_view(),
            ),
        decreases n - cur,
    {
        let p = skip_ws(s, cur);
        if p >= n {
            return None;
        }
        let pc = s.get_char(p);
        if pc == '>' || pc == '/' {
            return Some((attrs, p));
        }
        let ne = name_end(s, p);
        if ne == p {
            return None;
        }
        let q1 = skip_ws(s, ne);
        if !(q1 < n && s.get_char(q1) == '=') {
            return None;
        }
        let q2 = skip_ws(s, q1 + 1);
        if q2 >= n {
            return None;
        }
        let quote = s.get_char(q2);
        if !(quote == '"' || quote == '\'') {
            return None;
        }
        let vend = find_char(s, q2 + 1, quote);
        if vend >= n {
            return None;
        }
        let value = match unescape_value(s, q2 + 1, vend) {
            None => {
                return None;
            },
            Some(v) => v,
        };
        let nxt = vend + 1;
        if nxt <= cur {
            return None;
        }
        let name = s.substring_char(p, ne).to_owned();
        let ghost prev = attrs.deep_view();
        let a = XmlAttr { name, value };
        let ghost adv = a.deep_view();
        attrs.push(a);
        proof {
            assert(attrs.deep_view() =~= prev.push(adv));
        }
        cur = nxt;
    }
}

/// Lexes one markup construct that starts with `<` at `pos`: a tag, or a
/// skipped declaration, comment or CDATA section.  Yields the token, if
/// any, and the position after the construct.
pub open spec fn lex_markup_at(s: Seq<char>, pos: int) -> Option<(Option<SpecXmlTok>, int)> {
    let n = s.len() as int;
    if !(0 <= pos && pos + 1 < n) {
        None
    } else if s[pos] != '<' {
        None
    } else if s[pos + 1] == '?' {
        let e = find2_at(s, pos + 2, '?', '>');
        if e < n {
            Some((None, e + 2))
        } else {
            None
        }
    } else if s[pos + 1] == '!' {
        if pos + 3 < n && s[pos + 2] == '-' && s[pos + 3] == '-' {
            let e = find3_at(s, pos + 4, '-', '-', '>');
            if e < n {
                Some((None, e + 3))
            } else {
                None
            }
        } else if pos + 8 < n && s[pos + 2] == '[' && s[pos + 3] == 'C' && s[pos + 4] == 'D' && s[pos
            + 5] == 'A' && s[pos + 6] == 'T' && s[pos + 7] == 'A' && s[pos + 8] == '[' {
            let e = find3_at(s, pos + 9, ']', ']', '>');
            if e < n {
                Some((None, e + 3))
            } else {
                None
            }
        } else {
            None
        }
    } else if s[pos + 1] == '/' {
        let ne = name_end_at(s, pos + 2);
        if ne == pos + 2 {
            None
        } else {
            let p = skip_ws_at(s, ne);
            if p < n && s[p] == '>' {
                Some((Some(SpecXmlTok::Close { name: s.subrange(pos + 2, ne) }), p + 1))
            } else {
                None
            }
        }
    } else {
        let ne = name_end_at(s, pos + 1);
        if ne == pos + 1 {
            None
        } else {
            match lex_attrs_at(s, ne, Seq::empty()) {
                None => None,
                Some((attrs, p)) => {
                    let name = s.subrange(pos + 1, ne);
                    if p < n && s[p] == '>' {
                        Some((Some(SpecXmlTok::Open { name, attrs, self_closing: false }), p + 1))
                    } else if p + 1 < n && s[p] == '/' && s[p + 1] == '>' {
                        Some((Some(SpecXmlTok::Open { name, attrs, self_closing: true }), p + 2))
                    } else {
                        None
                    }
                },
            }
        }
    }
}

/// Lexes one markup construct.
fn lex_markup(s: &str, pos: usize) -> (r: Option<(Option<XmlTok>, usize)>)
    requires
        pos < s@.len(),
    ensures
        r is None ==> lex_markup_at(s@, pos as int) is None,
        r matches Some((t, p)) ==> lex_markup_at(s@, pos as int) == Some((t.deep_view(), p as int))
            && p <= s@.len(),
{
    let n = s.unicode_len();
    if pos + 1 >= n {
        return None;
    }
    if s.get_char(pos) != '<' {
        return None;
    }
    let c1 = s.get_char(pos + 1);
    if c1 == '?' {
        let e = find2(s, pos + 2, '?', '>');
        if e < n {
            Some((None, e + 2))
        } else {
            None
        }
    } else if c1 == '!' {
        if n - pos > 3 && s.get_char(pos + 2) == '-' && s.get_char(pos + 3) == '-' {
            let e = find3(s, pos + 4, '-', '-', '>');
            if e < n {
                Some((None, e + 3))
            } else {
                None
            }
        } else if n - pos > 8 && s.get_char(pos + 2) == '[' && s.get_char(pos + 3) == 'C'
            && s.get_char(pos + 4) == 'D' && s.get_char(pos + 5) == 'A' && s.get_char(pos + 6) == 'T'
            && s.get_char(pos + 7) == 'A' && s.get_char(pos + 8) == '[' {
            let e = find3(s, pos + 9, ']', ']', '>');
            if e < n {
                Some((None, e + 3))
            } else {
                None
            }
        } else {
            None
        }
    } else if c1 == '/' {
        let ne = name_end(s, pos + 2);
        if ne == pos + 2 {
            return None;
        }
        let p = skip_ws(s, ne);
        if p < n && s.get_char(p) == '>' {
            let name = s.substring_char(pos + 2, ne).to_owned();
            Some((Some(XmlTok::Close { name }), p + 1))
        } else {
            None
        }
    } else {
        let ne = name_end(s, pos + 1);
        if ne == pos + 1 {
            return None;
        }
        match lex_attrs(s, ne) {
            None => None,
            Some((attrs, p)) => {
                let name = s.substring_char(pos + 1, ne).to_owned();
                if p < n && s.get_char(p) == '>' {
                    Some((Some(XmlTok::Open { name, attrs, self_closing: false }), p + 1))
                } else if n - p > 1 && s.get_char(p) == '/' && s.get_char(p + 1) == '>' {
                    Some((Some(XmlTok::Open { name, attrs, self_closing: true }), p + 2))
                } else {
                    None
                }
            },
        }
    }
}

/// Lexes a whole document from `pos`, with the tokens gathered so far in
/// `acc`.
pub open spec fn lex_from(s: Seq<char>, pos: int, acc: Seq<SpecXmlTok>) -> Option<Seq<SpecXmlTok>>
    decreases s.len() - pos when 0 <= pos <= s.len()
{
    if pos >= s.len() {
        Some(acc)
    } else if s[pos] != '<' {
        let p2 = find_char_at(s, pos, '<');
        if p2 <= pos || p2 > s.len() {
            None
        } else {
            lex_from(s, p2, acc)
        }
    } else {
        match lex_markup_at(s, pos) {
            None => None,
            Some((tok, p2)) => if p2 <= pos || p2 > s.len() {
                None
            } else {
                match tok {
                    None => lex_from(s, p2, acc),
                    Some(t) => lex_from(s, p2, acc.push(t)),
                }
            },
        }
    }
}

/// Lexes a document into its token stream.
pub fn lex_document(s: &str) -> (r: Option<Vec<XmlTok>>)
    ensures
        r is None ==> lex_from(s@, 0, Seq::empty()) is None,
        r matches Some(t) ==> lex_from(s@, 0, Seq::empty()) == Some(t.deep_view()),
{
    let n = s.unicode_len();
    let mut toks: Vec<XmlTok> = Vec::new();
    let mut pos: usize = 0;
    proof {
        assert(toks.deep_view() =~= Seq::<SpecXmlTok>::empty());
    }
    while pos < n
        invariant
            0 <= pos <= n,
            n == s@.len(),
            lex_from(s@, 0, Seq::empty()) == lex_from(s@, pos as int, toks.deep_view()),
        decreases n - pos,
    {
        let c = s.get_char(pos);
        if c != '<' {
            let p2 = find_char(s, pos, '<');
            if p2 <= pos {
                return None;
            }
            pos = p2;
        } else {
            match lex_markup(s, pos) {
                None => {
                    return None;
                },
                Some((tok, p2)) => {
                    if p2 <= pos {
                        return None;
                    }
                    match tok {
                        None => {},
                        Some(t) => {
                            let ghost prev = toks.deep_view();
                            let ghost tdv = t.deep_view();
                            toks.push(t);
                            proof {
                                assert(toks.deep_view() =~= prev.push(tdv));
                            }
                        },
                    }
                    pos = p2;
                },
            }
        }
    }
    Some(toks)
}

/// Scans for the close tag that balances `depth` open elements, and
/// yields the position just after it.
pub open spec fn close_scan_at(toks: Seq<SpecXmlTok>, i: int, depth: int) -> Option<int>
    decreases toks.len() - i when 0 <= i <= toks.len()
{
    if i >= toks.len() {
        None
    } else {
        match toks[i] {
            SpecXmlTok::Open { self_closing, .. } => if self_closing {
                close_scan_at(toks, i + 1, depth)
            } else {
                close_scan_at(toks, i + 1, depth + 1)
            },
            SpecXmlTok::Close { .. } => if depth <= 1 {
                Some(i + 1)
            } else {
                close_scan_at(toks, i + 1, depth - 1)
            },
        }
    }
}

/// The position just after the element that starts at `i`: past the tag
/// itself when it is self-closing, else past its matching close tag.
pub open spec fn elem_extent_at(toks: Seq<SpecXmlTok>, i: int) -> Option<int> {
    if !(0 <= i < toks.len()) {
        None
    } else {
        match toks[i] {
            SpecXmlTok::Open { self_closing, .. } => if self_closing {
                Some(i + 1)
            } else {
                close_scan_at(toks, i + 1, 1)
            },
            SpecXmlTok::Close { .. } => None,
        }
    }
}

/// Finds the end of the element that starts at `i`.
#[verifier::loop_isolation(false)]
pub fn elem_extent(toks: &Vec<XmlTok>, i: usize) -> (r: Option<usize>)
    requires
        i < toks@.len(),
    ensures
        r is None ==> elem_extent_at(toks.deep_view(), i as int) is None,
        r matches Some(e) ==> elem_extent_at(toks.deep_view(), i as int) == Some(e as int) && i < e
            <= toks@.len(),
{
    let ghost dv = toks.deep_view();
    proof {
        assert(dv[i as int] == toks@[i as int].deep_view());
    }
    let n = toks.len();
    match &toks[i] {
        XmlTok::Close { .. } => None,
        XmlTok::Open { self_closing, .. } => {
            if *self_closing {
                return Some(i + 1);
            }
            let mut j: usize = i + 1;
            let mut depth: usize = 1;
            while j < n
                invariant
                    i + 1 <= j <= n,
                    n == toks@.len(),
                    dv == toks.deep_view(),
                    1 <= depth <= j,
                    close_scan_at(dv, i + 1 as int, 1) == close_scan_at(dv, j as int, depth as int),
                decreases n - j,
            {
                proof {
                    assert(dv[j as int] == toks@[j as int].deep_view());
                }
                match &toks[j] {
                    XmlTok::Open { self_closing, .. } => {
                        if !*self_closing {
                            depth = depth + 1;
                        }
                    },
                    XmlTok::Close { .. } => {
                        if depth == 1 {
                            return Some(j + 1);
                        }
                        depth = depth - 1;
                    },
                }
                j += 1;
            }
            None
        },
    }
}

/// Tags nest properly from `i` on, with `stack` the names of the
/// elements currently open.
pub open spec fn balanced_at(toks: Seq<SpecXmlTok>, i: int, stack: Seq<Seq<char>>) -> bool
    decreases toks.len() - i when 0 <= i <= toks.len()
{
    if i >= toks.len() {
        stack.len() == 0
    } else {
        match toks[i] {
            SpecXmlTok::Open { name, self_closing, .. } => if self_closing {
                balanced_at(toks, i + 1, stack)
            } else {
                balanced_at(toks, i + 1, stack.push(name))
            },
            SpecXmlTok::Close { name } => stack.len() > 0 && stack.last() == name && balanced_at(
                toks,
                i + 1,
                stack.drop_last(),
            ),
        }
    }
}

/// Checks that the token stream nests properly, with matching close-tag
/// names.
pub fn check_balanced(toks: &Vec<XmlTok>) -> (r: bool)
    ensures
        r == balanced_at(toks.deep_view(), 0, Seq::empty()),
{
    let ghost dv = toks.deep_view();
    let n = toks.len();
    let mut stack: Vec<String> = Vec::new();
    let mut i: usize = 0;
    proof {
        assert(stack.deep_view() =~= Seq::<Seq<char>>::empty());
    }
    while i < n
        invariant
            0 <= i <= n,
            n == toks@.len(),
            dv == toks.deep_view(),
            balanced_at(dv, 0, Seq::empty()) == balanced_at(dv, i as int, stack.deep_view()),
        decreases n - i,
    {
        proof {
            assert(dv[i as int] == toks@[i as int].deep_view());
        }
        match &toks[i] {
            XmlTok::Open { name, self_closing, .. } => {
                if !*self_closing {
                    let ghost prev = stack.deep_view();
                    let nm = name.clone();
                    stack.push(nm);
                    proof {
                        assert(stack.deep_view() =~= prev.push(toks@[i as int]->Open_name@));
                    }
                }
            },
            XmlTok::Close { name } => {
                let ghost prev = stack.deep_view();
                match stack.pop() {
                    None => {
                        proof {
                            assert(prev.len() == 0);
                        }
                        return false;
                    },
                    Some(top) => {
                        proof {
                            assert(top@ == prev.last());
                            assert(stack.deep_view() =~= prev.drop_last());
                        }
                        if !crate::textnum::str_eq(top.as_str(), name.as_str()) {
                            return false;
                        }
                    },
                }
            },
        }
        i += 1;
    }
    proof {
        if stack.deep_view().len() != 0 {
            assert(!balanced_at(dv, i as int, stack.deep_view()));
        }
    }
    stack.len() == 0
}

/// The token stream of a well-formed document: lexing succeeds, the
/// tags nest with matching names, and one root element spans the whole
/// stream.
pub open spec fn spec_parse_document(s: Seq<char>) -> Option<Seq<SpecXmlTok>> {
    match lex_from(s, 0, Seq::empty()) {
        None => None,
        Some(toks) => if toks.len() > 0 && balanced_at(toks, 0, Seq::empty()) && elem_extent_at(
            toks,
            0,
        ) == Some(toks.len() as int) {
            Some(toks)
        } else {
            None
        },
    }
}

/// Lexes and structurally checks a whole document.
pub fn parse_document(s: &str) -> (r: Option<Vec<XmlTok>>)
    ensures
        r is None ==> spec_parse_document(s@) is None,
        r matches Some(t) ==> spec_parse_document(s@) == Some(t.deep_view()),
{
    match lex_document(s) {
        None => None,
        Some(toks) => {
            if toks.len() == 0 {
                return None;
            }
            if !check_balanced(&toks) {
                return None;
            }
            match elem_extent(&toks, 0) {
                Some(e) => {
                    if e == toks.len() {
                        Some(toks)
                    } else {
                        None
                    }
                },
                None => None,
            }
        },
    }
}

/// The value of the first attribute named `name`, scanning from index `k`.
pub open spec fn attr_from(attrs: Seq<SpecXmlAttr>, k: int, name: Seq<char>) -> Option<Seq<char>>
    decreases attrs.len() - k when 0 <= k <= attrs.len()
{
    if k >= attrs.len() {
        None
    } else if attrs[k].name == name {
        Some(attrs[k].value)
    } else {
        attr_from(attrs, k + 1, name)
    }
}

/// The value of the named attribute of the element at `i`, when the
/// token there is an open tag that carries it.
pub open spec fn spec_attr(toks: Seq<SpecXmlTok>, i: int, name: Seq<char>) -> Option<Seq<char>> {
    if !(0 <= i < toks.len()) {
        None
    } else {
        match toks[i] {
            SpecXmlTok::Open { attrs, .. } => attr_from(attrs, 0, name),
            SpecXmlTok::Close { .. } => None,
        }
    }
}

/// Reads the named attribute of the element at `i`.
#[verifier::loop_isolation(false)]
pub fn elem_attr(toks: &Vec<XmlTok>, i: usize, name: &str) -> (r: Option<String>)
    requires
        i < toks@.len(),
    ensures
        r is None ==> spec_attr(toks.deep_view(), i as int, name@) is None,
        r matches Some(v) ==> spec_attr(toks.deep_view(), i as int, name@) == Some(v@),
{
    let ghost dv = toks.deep_view();
    proof {
        assert(dv[i as int] == toks@[i as int].deep_view());
    }
    match &toks[i] {
        XmlTok::Close { .. } => None,
        XmlTok::Open { attrs, .. } => {
            let ghost sattrs = dv[i as int]->Open_attrs;
            let m = attrs.len();
            let mut k: usize = 0;
            while k < m
                invariant
                    0 <= k <= m,
                    m == attrs@.len(),
                    sattrs == attrs.deep_view(),
                    attr_from(sattrs, 0, name@) == attr_from(sattrs, k as int, name@),
                decreases m - k,
            {
                proof {
                    assert(sattrs[k as int] == attrs@[k as int].deep_view());
                }
                if crate::textnum::str_eq(attrs[k].name.as_str(), name) {
                    return Some(attrs[k].value.clone());
                }
                k += 1;
            }
            None
        },
    }
}

/// The position of the first direct child named `name`, scanning the
/// sibling positions from `i`; the scan stops at the parent's close tag.
pub open spec fn first_child_from(toks: Seq<SpecXmlTok>, i: int, name: Seq<char>) -> Option<int>
    decreases toks.len() - i when 0 <= i <= toks.len()
{
    if i >= toks.len() {
        None
    } else {
        match toks[i] {
            SpecXmlTok::Close { .. } => None,
            SpecXmlTok::Open { name: n2, .. } => if n2 == name {
                Some(i)
            } else {
                match elem_extent_at(toks, i) {
                    None => None,
                    Some(j) => if j <= i || j > toks.len() {
                        None
                    } else {
                        first_child_from(toks, j, name)
                    },
                }
            },
        }
    }
}

/// The first direct child named `name` of the element at `i`.
pub open spec fn spec_first_child(toks: Seq<SpecXmlTok>, i: int, name: Seq<char>) -> Option<int> {
    if !(0 <= i < toks.len()) {
        None
    } else {
        match toks[i] {
            SpecXmlTok::Close { .. } => None,
            SpecXmlTok::Open { self_closing, .. } => if self_closing {
                None
            } else {
                first_child_from(toks, i + 1, name)
            },
        }
    }
}

/// Finds the first direct child named `name` of the element at `i`.
#[verifier::loop_isolation(false)]
pub fn first_child(toks: &Vec<XmlTok>, i: usize, name: &str) -> (r: Option<usize>)
    requires
        i < toks@.len(),
    ensures
        r is None ==> spec_first_child(toks.deep_view(), i as int, name@) is None,
        r matches Some(j) ==> spec_first_child(toks.deep_view(), i as int, name@) == Some(j as int)
            && i < j < toks@.len(),
{
    let ghost dv = toks.deep_view();
    proof {
        assert(dv[i as int] == toks@[i as int].deep_view());
    }
    let n = toks.len();
    match &toks[i] {
        XmlTok::Close { .. } => None,
        XmlTok::Open { self_closing, .. } => {
            if *self_closing {
                return None;
            }
            let mut cur: usize = i + 1;
            loop
                invariant
                    i + 1 <= cur <= n,
                    n == toks@.len(),
                    dv == toks.deep_view(),
                    first_child_from(dv, i + 1 as int, name@) == first_child_from(
                        dv,
                        cur as int,
                        name@,
                    ),
                decreases n - cur,
            {
                if cur >= n {
                    return None;
                }
                proof {
                    assert(dv[cur as int] == toks@[cur as int].deep_view());
                }
                match &toks[cur] {
                    XmlTok::Close { .. } => {
                        return None;
                    },
                    XmlTok::Open { name: n2, .. } => {
                        if crate::textnum::str_eq(n2.as_str(), name) {
                            return Some(cur);
                        }
                        match elem_extent(toks, cur) {
                            None => {
                                return None;
                            },
                            Some(j) => {
                                if j <= cur {
                                    return None;
                                }
                                cur = j;
                            },
                        }
                    },
                }
            }
        },
    }
}

} // verus!
