//! The HTTP exchange as recorded by a run: versions, headers, requests,
//! responses, and the textual status line and header block of a response.

use crate::text::{decimal, push_all, push_decimal};
use colored::Colorize;
use vstd::prelude::*;
use vstd::utf8::encode_utf8;

verus! {

/// The protocol version of a response.
#[derive(Clone, Copy, Debug, PartialEq, Eq, Structural)]
pub enum HttpVersion {
    Http10,
    Http11,
    Http2,
    Http3,
}

impl HttpVersion {
    /// The version as it is written in a status line, in ASCII:
    /// `HTTP/1.0`, `HTTP/1.1`, `HTTP/2` or `HTTP/3`.
    pub open spec fn text(self) -> Seq<u8> {
        match self {
            HttpVersion::Http10 => seq![72u8, 84u8, 84u8, 80u8, 47u8, 49u8, 46u8, 48u8],
            HttpVersion::Http11 => seq![72u8, 84u8, 84u8, 80u8, 47u8, 49u8, 46u8, 49u8],
            HttpVersion::Http2 => seq![72u8, 84u8, 84u8, 80u8, 47u8, 50u8],
            HttpVersion::Http3 => seq![72u8, 84u8, 84u8, 80u8, 47u8, 51u8],
        }
    }

    /// Appends `self.text()` to `out`.
    pub fn write_to(self, out: &mut Vec<u8>)
        ensures
            final(out)@ == old(out)@ + self.text(),
    {
        out.push(72u8);
        out.push(84u8);
        out.push(84u8);
        out.push(80u8);
        out.push(47u8);
        match self {
            HttpVersion::Http10 => {
                out.push(49u8);
                out.push(46u8);
                out.push(48u8);
            },
            HttpVersion::Http11 => {
                out.push(49u8);
                out.push(46u8);
                out.push(49u8);
            },
            HttpVersion::Http2 => {
                out.push(50u8);
            },
            HttpVersion::Http3 => {
                out.push(51u8);
            },
        }
        assert(out@ =~= old(out)@ + self.text());
    }
}

impl Default for HttpVersion {
    fn default() -> (v: HttpVersion)
        ensures
            v == HttpVersion::Http10,
    {
        HttpVersion::Http10
    }
}

/// One header entry: a name and a value.
#[derive(Clone, Debug, PartialEq, Eq)]
pub struct Header {
    pub name: String,
    pub value: String,
}

impl Header {
    pub fn new(name: &str, value: &str) -> (h: Header)
        ensures
            h.name@ == name@,
            h.value@ == value@,
    {
        Header { name: name.to_owned(), value: value.to_owned() }
    }

    /// The name as UTF-8 bytes.
    pub open spec fn name_bytes(self) -> Seq<u8> {
        encode_utf8(self.name@)
    }

    /// The value as UTF-8 bytes.
    pub open spec fn value_bytes(self) -> Seq<u8> {
        encode_utf8(self.value@)
    }
}

/// An ordered list of headers. Names may repeat; order is kept.
#[derive(Clone, Debug, PartialEq, Eq)]
pub struct HeaderVec {
    pub headers: Vec<Header>,
}

impl View for HeaderVec {
    type V = Seq<Header>;

    open spec fn view(&self) -> Seq<Header> {
        self.headers@
    }
}

impl HeaderVec {
    pub fn new() -> (h: HeaderVec)
        ensures
            h@ == Seq::<Header>::empty(),
    {
        HeaderVec { headers: Vec::new() }
    }

    /// Adds `header` after all present ones, whatever its name.
    pub fn push(&mut self, header: Header)
        ensures
            final(self)@ == old(self)@.push(header),
    {
        self.headers.push(header);
    }

    pub fn len(&self) -> (n: usize)
        ensures
            n == self@.len(),
    {
        self.headers.len()
    }

    pub fn is_empty(&self) -> (b: bool)
        ensures
            b == (self@.len() == 0),
    {
        self.headers.len() == 0
    }
}

/// The request of an exchange.
#[derive(Clone, Debug, PartialEq, Eq)]
pub struct Request {
    pub url: String,
    pub method: String,
    pub headers: HeaderVec,
    pub body: Vec<u8>,
}

/// The response of an exchange. `body` holds the bytes as the transport
/// delivered them, still encoded where a content encoding was applied.
/// `duration` is in milliseconds.
#[derive(Clone, Debug, PartialEq, Eq)]
pub struct Response {
    pub version: HttpVersion,
    pub status: u32,
    pub headers: HeaderVec,
    pub body: Vec<u8>,
    pub duration: u64,
    pub url: String,
}

/// One request and its response.
#[derive(Clone, Debug, PartialEq, Eq)]
pub struct Call {
    pub request: Request,
    pub response: Response,
}

/// One header line: the name, a colon and a space, the value, a line feed.
pub open spec fn header_line(name: Seq<u8>, value: Seq<u8>) -> Seq<u8> {
    name + seq![58u8, 32u8] + value + seq![10u8]
}

/// The header lines of the first `n` headers, one after the other, where the
/// name of header `i` is written as `names[i]`.
pub open spec fn header_lines(names: Seq<Seq<u8>>, headers: Seq<Header>, n: int) -> Seq<u8>
    decreases n,
{
    if n <= 0 {
        Seq::empty()
    } else {
        header_lines(names, headers, n - 1) + header_line(
            names[n - 1],
            headers[n - 1].value_bytes(),
        )
    }
}

/// A status line and header block: `status_line`, a line feed, then one line
/// per header in order.
pub open spec fn header_text(status_line: Seq<u8>, names: Seq<Seq<u8>>, headers: Seq<Header>) -> Seq<
    u8,
> {
    status_line + seq![10u8] + header_lines(names, headers, headers.len() as int)
}

/// `colored::ColoredString`: a text together with the style asked for it.
#[verifier::external_type_specification]
#[verifier::external_body]
pub struct ExColoredString(colored::ColoredString);

/// Calls `colored::Colorize::green` on `text`, read as UTF-8. Nothing is
/// claimed of the styled text.
#[verifier::external_body]
fn green(text: &[u8]) -> colored::ColoredString {
    String::from_utf8_lossy(text).green()
}

/// Calls `colored::Colorize::cyan` on `text`, read as UTF-8. Nothing is
/// claimed of the styled text.
#[verifier::external_body]
fn cyan(text: &[u8]) -> colored::ColoredString {
    String::from_utf8_lossy(text).cyan()
}

/// Calls `colored::Colorize::bold` on an already styled text. Nothing is
/// claimed of the result.
#[verifier::external_body]
fn bold(text: colored::ColoredString) -> colored::ColoredString {
    text.bold()
}

/// Formats a styled text through its `Display` impl of `colored`. Which
/// bytes come out depends on whether colouring is switched on in this
/// process, so nothing is claimed of them.
#[verifier::external_body]
fn styled_bytes(text: &colored::ColoredString) -> Vec<u8> {
    text.to_string().into_bytes()
}

/// The names as they are written in a header block of `headers`: the given
/// one for each header that has one, the header's own name for the others.
pub open spec fn names_shown(given: Seq<Seq<u8>>, headers: Seq<Header>) -> Seq<Seq<u8>> {
    Seq::new(
        headers.len(),
        |i: int|
            if i < given.len() {
                given[i]
            } else {
                headers[i].name_bytes()
            },
    )
}

/// The byte sequences that `names` holds.
pub open spec fn each_view(names: Seq<Vec<u8>>) -> Seq<Seq<u8>> {
    Seq::new(names.len(), |i: int| names[i]@)
}

impl Response {
    /// The status line without styling: version, a space, the status code in
    /// decimal.
    pub open spec fn status_line(self) -> Seq<u8> {
        self.version.text() + seq![32u8] + decimal(self.status as nat)
    }

    /// The header names without styling, as UTF-8 bytes, in order.
    pub open spec fn plain_names(self) -> Seq<Seq<u8>> {
        Seq::new(self.headers@.len(), |i: int| self.headers@[i].name_bytes())
    }

    /// The status line and headers without styling.
    pub open spec fn plain_header_text(self) -> Seq<u8> {
        header_text(self.status_line(), self.plain_names(), self.headers@)
    }

    /// Whether `text` is a rendering of the status line and headers of this
    /// response: the plain one where `color` is off; where it is on, one in
    /// which the status line and each header name stand as some styled text,
    /// and separators, values and line ends are as in the plain one.
    pub open spec fn is_header_text(self, color: bool, text: Seq<u8>) -> bool {
        if color {
            exists|status_line: Seq<u8>, names: Seq<Seq<u8>>|
                names.len() == self.headers@.len() && text == #[trigger] header_text(
                    status_line,
                    names,
                    self.headers@,
                )
        } else {
            text == self.plain_header_text()
        }
    }

    /// Renders the status line and the headers, given the status line and the
    /// header names as they are to be written (styled or not). A header
    /// without a given name is written under its own.
    pub fn header_text_with(&self, status_line: &[u8], names: &Vec<Vec<u8>>) -> (out: Vec<u8>)
        ensures
            out@ == header_text(
                status_line@,
                names_shown(each_view(names@), self.headers@),
                self.headers@,
            ),
    {
        let ghost shown = names_shown(each_view(names@), self.headers@);
        let mut out: Vec<u8> = Vec::new();
        push_all(&mut out, status_line);
        out.push(10u8);
        let n: usize = self.headers.headers.len();
        let mut i: usize = 0;
        while i < n
            invariant
                n == self.headers@.len(),
                0 <= i <= n,
                shown == names_shown(each_view(names@), self.headers@),
                out@ == status_line@ + seq![10u8] + header_lines(shown, self.headers@, i as int),
            decreases n - i,
        {
            let ghost before = out@;
            if i < names.len() {
                push_all(&mut out, names[i].as_slice());
            } else {
                push_all(&mut out, self.headers.headers[i].name.as_str().as_bytes());
            }
            out.push(58u8);
            out.push(32u8);
            push_all(&mut out, self.headers.headers[i].value.as_str().as_bytes());
            out.push(10u8);
            assert(out@ =~= before + header_line(shown[i as int], self.headers@[i as int].value_bytes()));
            i = i + 1;
            assert(out@ =~= status_line@ + seq![10u8] + header_lines(shown, self.headers@, i as int));
        }
        out
    }

    /// The status line and the headers as text, one header per line in the
    /// order recorded, styled for a terminal where `color` is on.
    pub fn get_status_line_headers(&self, color: bool) -> (out: Vec<u8>)
        ensures
            self.is_header_text(color, out@),
    {
        let mut line: Vec<u8> = Vec::new();
        self.version.write_to(&mut line);
        line.push(32u8);
        push_decimal(&mut line, self.status);
        assert(line@ =~= self.status_line());
        let mut names: Vec<Vec<u8>> = Vec::new();
        if color {
            line = styled_bytes(&bold(green(line.as_slice())));
            let n: usize = self.headers.headers.len();
            let mut i: usize = 0;
            while i < n
                invariant
                    n == self.headers@.len(),
                    0 <= i <= n,
                    names@.len() == i,
                decreases n - i,
            {
                let name = self.headers.headers[i].name.as_str().as_bytes();
                names.push(styled_bytes(&bold(cyan(name))));
                i = i + 1;
            }
        }
        let out = self.header_text_with(line.as_slice(), &names);
        proof {
            let shown = names_shown(each_view(names@), self.headers@);
            if !color {
                assert(shown =~= self.plain_names());
            } else {
                assert(shown.len() == self.headers@.len());
            }
        }
        out
    }
}

impl Default for Response {
    fn default() -> (r: Response)
        ensures
            r.version == HttpVersion::Http10,
            r.status == 200,
            r.headers@.len() == 0,
            r.body@.len() == 0,
            r.duration == 0,
            r.url@.len() == 0,
    {
        Response {
            version: HttpVersion::Http10,
            status: 200,
            headers: HeaderVec::new(),
            body: Vec::new(),
            duration: 0,
            url: String::new(),
        }
    }
}

} // verus!
