//! Text that is safe to put into HTML.

use vstd::prelude::*;
use vstd::string::StringExecFns;
use crate::text::{decimal, push_char, push_decimal};

verus! {

/// A string that is shown escaped for HTML.
#[derive(Debug)]
pub struct HtmlStr<S>(pub S);

/// What stands for one character in HTML: an entity for each of the five
/// characters that HTML gives a meaning to, and the character itself
/// otherwise.
pub open spec fn escaped_char(c: char) -> Seq<char> {
    if c == '&' {
        "&amp;"@
    } else if c == '<' {
        "&lt;"@
    } else if c == '>' {
        "&gt;"@
    } else if c == '"' {
        "&quot;"@
    } else if c == '\'' {
        "&#x27;"@
    } else {
        seq![c]
    }
}

/// The text with each character escaped.
pub open spec fn escaped(s: Seq<char>) -> Seq<char>
    decreases s.len(),
{
    if s.len() == 0 {
        seq![]
    } else {
        escaped(s.drop_last()) + escaped_char(s.last())
    }
}

/// The first `len` characters of the text, or all of it where it has
/// fewer, with each character escaped.
pub open spec fn escaped_prefix(s: Seq<char>, len: nat) -> Seq<char> {
    if len < s.len() {
        escaped(s.take(len as int))
    } else {
        escaped(s)
    }
}

proof fn lemma_escaped_step(s: Seq<char>, n: int)
    requires
        0 <= n < s.len(),
    ensures
        escaped(s.take(n + 1)) == escaped(s.take(n)) + escaped_char(s[n]),
{
    assert(s.take(n + 1).drop_last() =~= s.take(n));
}

/// Appends what stands for one character in HTML.
fn push_escaped(out: &mut String, c: char)
    ensures
        final(out)@ == old(out)@ + escaped_char(c),
{
    if c == '&' {
        out.append("&amp;");
    } else if c == '<' {
        out.append("&lt;");
    } else if c == '>' {
        out.append("&gt;");
    } else if c == '"' {
        out.append("&quot;");
    } else if c == '\'' {
        out.append("&#x27;");
    } else {
        push_char(out, c);
        assert(out@ =~= old(out)@ + escaped_char(c));
    }
}

/// Escapes the first `len` characters of a text for HTML.
pub fn encode_prefix(s: &str, len: usize) -> (r: String)
    ensures
        r@ == escaped_prefix(s@, len as nat),
{
    broadcast use vstd::string::group_string_axioms;

    let mut out = String::new();
    let mut n: usize = 0;
    for c in it: s.chars()
        invariant
            it.seq() == s@,
            n == it.index(),
            n <= len,
            out@ == escaped(s@.take(n as int)),
    {
        if n >= len {
            assert(s@.take(n as int) == s@.take(len as int));
            return out;
        }
        proof {
            lemma_escaped_step(s@, n as int);
        }
        push_escaped(&mut out, c);
        n += 1;
    }
    assert(s@.take(n as int) =~= s@);
    out
}

/// Escapes a text for HTML.
pub fn encode(s: &str) -> (r: String)
    ensures
        r@ == escaped(s@),
{
    broadcast use vstd::string::group_string_axioms;

    let mut out = String::new();
    for c in it: s.chars()
        invariant
            it.seq() == s@,
            out@ == escaped(s@.take(it.index() as int)),
    {
        proof {
            lemma_escaped_step(s@, it.index() as int);
        }
        push_escaped(&mut out, c);
    }
    assert(s@.take(s@.len() as int) =~= s@);
    out
}

/// The text of an optional string: nothing where there is none.
pub open spec fn text_or_empty(s: Option<&String>) -> Seq<char> {
    match s {
        Some(val) => val@,
        None => seq![],
    }
}

impl<'a> HtmlStr<&'a str> {
    /// The string, escaped for HTML.
    pub fn to_string(&self) -> (r: String)
        ensures
            r@ == escaped(self.0@),
    {
        encode(self.0)
    }

    /// The first `len` characters of the string, escaped for HTML.
    pub fn with_len(&self, len: usize) -> (r: String)
        ensures
            r@ == escaped_prefix(self.0@, len as nat),
    {
        encode_prefix(self.0, len)
    }
}

impl<'a> HtmlStr<&'a String> {
    /// The string, escaped for HTML.
    pub fn to_string(&self) -> (r: String)
        ensures
            r@ == escaped(self.0@),
    {
        encode(self.0.as_str())
    }

    /// The first `len` characters of the string, escaped for HTML.
    pub fn with_len(&self, len: usize) -> (r: String)
        ensures
            r@ == escaped_prefix(self.0@, len as nat),
    {
        encode_prefix(self.0.as_str(), len)
    }
}

impl<'a> HtmlStr<Option<&'a String>> {
    /// The string, escaped for HTML; nothing where there is none.
    pub fn to_string(&self) -> (r: String)
        ensures
            r@ == escaped(text_or_empty(self.0)),
    {
        match self.0 {
            Some(val) => encode(val.as_str()),
            None => String::new(),
        }
    }

    /// The first `len` characters of the string, escaped for HTML;
    /// nothing where there is none.
    pub fn with_len(&self, len: usize) -> (r: String)
        ensures
            r@ == escaped_prefix(text_or_empty(self.0), len as nat),
    {
        match self.0 {
            Some(val) => encode_prefix(val.as_str(), len),
            None => String::new(),
        }
    }
}

/// The text of an optional string: nothing where there is none.
pub open spec fn opt_text(s: Option<String>) -> Seq<char> {
    match s {
        Some(val) => val@,
        None => seq![],
    }
}

/// Escapes an optional text for HTML: nothing where there is none.
pub fn encode_opt(s: &Option<String>) -> (r: String)
    ensures
        r@ == escaped(opt_text(*s)),
{
    match s {
        Some(val) => encode(val.as_str()),
        None => String::new(),
    }
}

/// Escapes the first `len` characters of an optional text for HTML.
pub fn encode_opt_prefix(s: &Option<String>, len: usize) -> (r: String)
    ensures
        r@ == escaped_prefix(opt_text(*s), len as nat),
{
    match s {
        Some(val) => encode_prefix(val.as_str(), len),
        None => String::new(),
    }
}

/// The decimal numeral of an optional number: nothing where there is
/// none.
pub open spec fn number_or_empty(v: Option<u32>) -> Seq<char> {
    match v {
        Some(n) => decimal(n as nat),
        None => seq![],
    }
}

/// An optional number as it is shown: its decimal numeral, or nothing.
pub fn opt_val(v: Option<u32>) -> (r: String)
    ensures
        r@ == number_or_empty(v),
{
    let mut out = String::new();
    match v {
        Some(n) => {
            push_decimal(&mut out, n);
            assert(out@ =~= decimal(n as nat));
        },
        None => {},
    }
    out
}

} // verus!
