//! What a plugin sees of a request, and how its parts are shown.

use vstd::prelude::*;
use vstd::string::*;
use crate::infrastructure::text::{join, join_strings};

verus! {

/// The body of a request that is about to be sent.
#[derive(Debug, Clone, PartialEq, Eq)]
pub enum RequestBody {
    /// Bytes that are valid UTF-8, as text.
    Text(String),
    /// Bytes that are not text.
    Binary(Vec<u8>),
    /// A body that is produced while it is sent.
    Stream,
}

/// The mathematical model of a [`RequestBody`].
pub enum RequestBodyView {
    Text(Seq<char>),
    Binary(Seq<u8>),
    Stream,
}

impl DeepView for RequestBody {
    type V = RequestBodyView;

    open spec fn deep_view(&self) -> RequestBodyView {
        match self {
            RequestBody::Text(text) => RequestBodyView::Text(text@),
            RequestBody::Binary(bytes) => RequestBodyView::Binary(bytes@),
            RequestBody::Stream => RequestBodyView::Stream,
        }
    }
}

/// A request that is about to be sent, as a plugin sees it.
#[derive(Debug, Clone, PartialEq, Eq)]
pub struct RequestSummary {
    pub method: String,
    pub url: String,
    pub headers: Vec<(String, String)>,
    pub body: Option<RequestBody>,
}

/// The mathematical model of a [`RequestSummary`].
pub struct RequestSummaryView {
    pub method: Seq<char>,
    pub url: Seq<char>,
    pub headers: Seq<(Seq<char>, Seq<char>)>,
    pub body: Option<RequestBodyView>,
}

impl View for RequestSummary {
    type V = RequestSummaryView;

    open spec fn view(&self) -> RequestSummaryView {
        RequestSummaryView {
            method: self.method@,
            url: self.url@,
            headers: self.headers.deep_view(),
            body: self.body.deep_view(),
        }
    }
}

/// What a character becomes inside a quoted argument: a single or double
/// quote goes behind a backslash, and a single quote behind two where
/// `doubled`.
pub open spec fn escaped_char(c: char, doubled: bool) -> Seq<char> {
    if c == '\'' {
        if doubled {
            "\\\\'"@
        } else {
            "\\'"@
        }
    } else if c == '"' {
        "\\\""@
    } else {
        seq![c]
    }
}

/// `text` with each of its characters escaped.
pub open spec fn escaped(text: Seq<char>, doubled: bool) -> Seq<char>
    decreases text.len(),
{
    if text.len() == 0 {
        Seq::empty()
    } else {
        escaped(text.drop_last(), doubled) + escaped_char(text.last(), doubled)
    }
}

/// The sixteen hexadecimal digits, in upper case.
pub open spec fn hex_digits() -> Seq<char> {
    "0123456789ABCDEF"@
}

/// A byte as two hexadecimal digits.
pub open spec fn hex_byte(byte: u8) -> Seq<char> {
    hex_digits().subrange(byte as int / 16, byte as int / 16 + 1) + hex_digits().subrange(
        byte as int % 16,
        byte as int % 16 + 1,
    )
}

/// The first fifty bytes at most, each as two hexadecimal digits, with a
/// space between neighbours.
pub open spec fn hex_dump(bytes: Seq<u8>) -> Seq<char> {
    join(
        Seq::new(
            if bytes.len() < 50 {
                bytes.len()
            } else {
                50
            },
            |i: int| hex_byte(bytes[i]),
        ),
        " "@,
    )
}

/// How a body that is not text is shown: `Binary Data ("<hex dump>")`.
pub open spec fn binary_text(bytes: Seq<u8>) -> Seq<char> {
    "Binary Data (\""@ + hex_dump(bytes) + "\")"@
}

/// Escapes the quotes of `text`.
pub fn escape(text: &str, doubled: bool) -> (result: String)
    ensures
        result@ == escaped(text@, doubled),
{
    let mut result = String::new();
    let chars = text.chars();
    for c in it: chars
        invariant
            it.seq() == text@,
            result@ == escaped(text@.take(it.index() as int), doubled),
    {
        assert(text@.take(it.index() + 1).drop_last() =~= text@.take(it.index() as int));
        if c == '\'' {
            if doubled {
                result.append("\\\\'");
            } else {
                result.append("\\'");
            }
        } else if c == '"' {
            result.append("\\\"");
        } else {
            result.push(c);
        }
    }
    assert(text@.take(text@.len() as int) =~= text@);
    result
}

fn hex_byte_text(byte: u8) -> (text: String)
    ensures
        text@ == hex_byte(byte),
{
    proof {
        reveal_strlit("0123456789ABCDEF");
    }
    let high = (byte / 16) as usize;
    let low = (byte % 16) as usize;
    let mut text = "0123456789ABCDEF".substring_char(high, high + 1).to_owned();
    text.append("0123456789ABCDEF".substring_char(low, low + 1));
    text
}

/// Shows a body that is not text.
pub fn binary_body_text(bytes: &Vec<u8>) -> (text: String)
    ensures
        text@ == binary_text(bytes@),
{
    let shown: usize = if bytes.len() < 50 {
        bytes.len()
    } else {
        50
    };
    let mut parts: Vec<String> = Vec::new();
    let mut i: usize = 0;
    while i < shown
        invariant
            i <= shown <= bytes.len(),
            parts.len() == i,
            forall|j: int| 0 <= j < i ==> parts[j]@ == hex_byte(bytes[j]),
        decreases shown - i,
    {
        parts.push(hex_byte_text(bytes[i]));
        i += 1;
    }
    assert(parts.deep_view() =~= Seq::new(shown as nat, |i: int| hex_byte(bytes@[i])));
    let mut text = "Binary Data (\"".to_owned();
    text.append(join_strings(&parts, " ").as_str());
    text.append("\")");
    text
}

} // verus!
