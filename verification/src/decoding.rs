//! Content encodings of a response body: reading them from the headers and
//! undoing them.

use crate::http::{Header, Response};
use crate::text::{eq_ignoring_case, equal_ignoring_case, trim, trimmed};
use std::io::Read;
use vstd::prelude::*;

verus! {

/// A content coding that a body may carry.
#[derive(Clone, Copy, Debug, PartialEq, Eq, Structural)]
pub enum ContentEncoding {
    Brotli,
    Gzip,
    Deflate,
    Identity,
}

/// Why a body could not be decoded.
#[derive(Clone, Debug, PartialEq, Eq)]
pub enum HttpError {
    /// The decoder of `encoding` rejected the bytes.
    CouldNotUncompressResponse { encoding: ContentEncoding },
    /// The headers name a coding that is not known; `description` is that
    /// name as written, trimmed.
    UnsupportedContentEncoding { description: Vec<u8> },
}

/// The mathematical value of an `HttpError`.
pub enum HttpFailure {
    CouldNotUncompress(ContentEncoding),
    Unsupported(Seq<u8>),
}

impl View for HttpError {
    type V = HttpFailure;

    open spec fn view(&self) -> HttpFailure {
        match self {
            HttpError::CouldNotUncompressResponse { encoding } => HttpFailure::CouldNotUncompress(
                *encoding,
            ),
            HttpError::UnsupportedContentEncoding { description } => HttpFailure::Unsupported(
                description@,
            ),
        }
    }
}

/// What a gzip decoder makes of `data`: the decoded bytes, or `None` where it
/// rejects them.
pub uninterp spec fn gzip_decoded(data: Seq<u8>) -> Option<Seq<u8>>;

/// What a zlib decoder makes of `data`: the decoded bytes, or `None` where it
/// rejects them.
pub uninterp spec fn zlib_decoded(data: Seq<u8>) -> Option<Seq<u8>>;

/// What a brotli decoder makes of `data`: the decoded bytes, or `None` where
/// it rejects them.
pub uninterp spec fn brotli_decoded(data: Seq<u8>) -> Option<Seq<u8>>;

/// Runs `libflate::gzip::Decoder` over `data` to the end. The result is
/// `gzip_decoded(data)`: the bytes read, or `None` where making the decoder or
/// reading from it fails.
#[verifier::external_body]
fn gunzip(data: &[u8]) -> (out: Option<Vec<u8>>)
    ensures
        out.is_some() == gzip_decoded(data@).is_some(),
        out.is_some() ==> out.unwrap()@ == gzip_decoded(data@).unwrap(),
{
    let mut buf = Vec::new();
    match libflate::gzip::Decoder::new(data) {
        Ok(mut decoder) => match decoder.read_to_end(&mut buf) {
            Ok(_) => Some(buf),
            Err(_) => None,
        },
        Err(_) => None,
    }
}

/// Runs `libflate::zlib::Decoder` over `data` to the end. The result is
/// `zlib_decoded(data)`: the bytes read, or `None` where making the decoder or
/// reading from it fails.
#[verifier::external_body]
fn inflate(data: &[u8]) -> (out: Option<Vec<u8>>)
    ensures
        out.is_some() == zlib_decoded(data@).is_some(),
        out.is_some() ==> out.unwrap()@ == zlib_decoded(data@).unwrap(),
{
    let mut buf = Vec::new();
    match libflate::zlib::Decoder::new(data) {
        Ok(mut decoder) => match decoder.read_to_end(&mut buf) {
            Ok(_) => Some(buf),
            Err(_) => None,
        },
        Err(_) => None,
    }
}

/// Runs `brotli::Decompressor`, made with a buffer of 4096 bytes, over `data`
/// to the end. The result is `brotli_decoded(data)`: the bytes read, or `None`
/// where reading fails.
#[verifier::external_body]
fn unbrotli(data: &[u8]) -> (out: Option<Vec<u8>>)
    ensures
        out.is_some() == brotli_decoded(data@).is_some(),
        out.is_some() ==> out.unwrap()@ == brotli_decoded(data@).unwrap(),
{
    let mut buf = Vec::new();
    let mut decoder = brotli::Decompressor::new(data, 4096);
    match decoder.read_to_end(&mut buf) {
        Ok(_) => Some(buf),
        Err(_) => None,
    }
}

/// The name under which a response records its content codings, in lower
/// case: `content-encoding`.
pub open spec fn encoding_header_name() -> Seq<u8> {
    seq![
        99u8, 111u8, 110u8, 116u8, 101u8, 110u8, 116u8, 45u8, 101u8, 110u8, 99u8, 111u8, 100u8,
        105u8, 110u8, 103u8,
    ]
}

/// Whether `header` is the one that records the content codings: its name is
/// `content-encoding` in any case.
pub open spec fn names_encoding(header: Header) -> bool {
    eq_ignoring_case(header.name_bytes(), encoding_header_name())
}

impl ContentEncoding {
    /// The coding that `token` names: `br`, `gzip`, `deflate` or `identity`,
    /// in exactly this spelling.
    pub open spec fn named(token: Seq<u8>) -> Option<ContentEncoding> {
        if token == seq![98u8, 114u8] {
            Some(ContentEncoding::Brotli)
        } else if token == seq![103u8, 122u8, 105u8, 112u8] {
            Some(ContentEncoding::Gzip)
        } else if token == seq![100u8, 101u8, 102u8, 108u8, 97u8, 116u8, 101u8] {
            Some(ContentEncoding::Deflate)
        } else if token == seq![105u8, 100u8, 101u8, 110u8, 116u8, 105u8, 116u8, 121u8] {
            Some(ContentEncoding::Identity)
        } else {
            None
        }
    }

    /// Reads a coding's name.
    pub fn parse(token: &[u8]) -> (r: Option<ContentEncoding>)
        ensures
            r == Self::named(token@),
    {
        let n: usize = token.len();
        if n == 2 && token[0] == 98 && token[1] == 114 {
            assert(token@ =~= seq![98u8, 114u8]);
            Some(ContentEncoding::Brotli)
        } else if n == 4 && token[0] == 103 && token[1] == 122 && token[2] == 105 && token[3]
            == 112 {
            assert(token@ =~= seq![103u8, 122u8, 105u8, 112u8]);
            Some(ContentEncoding::Gzip)
        } else if n == 7 && token[0] == 100 && token[1] == 101 && token[2] == 102 && token[3]
            == 108 && token[4] == 97 && token[5] == 116 && token[6] == 101 {
            assert(token@ =~= seq![100u8, 101u8, 102u8, 108u8, 97u8, 116u8, 101u8]);
            Some(ContentEncoding::Deflate)
        } else if n == 8 && token[0] == 105 && token[1] == 100 && token[2] == 101 && token[3]
            == 110 && token[4] == 116 && token[5] == 105 && token[6] == 116 && token[7] == 121 {
            assert(token@ =~= seq![105u8, 100u8, 101u8, 110u8, 116u8, 105u8, 116u8, 121u8]);
            Some(ContentEncoding::Identity)
        } else {
            proof {
                let b = seq![98u8, 114u8];
                let g = seq![103u8, 122u8, 105u8, 112u8];
                let d = seq![100u8, 101u8, 102u8, 108u8, 97u8, 116u8, 101u8];
                let i = seq![105u8, 100u8, 101u8, 110u8, 116u8, 105u8, 116u8, 121u8];
                assert(b.len() == 2 && b[0] == 98 && b[1] == 114);
                assert(g.len() == 4 && g[0] == 103 && g[1] == 122 && g[2] == 105 && g[3] == 112);
                assert(d.len() == 7 && d[0] == 100 && d[1] == 101 && d[2] == 102 && d[3] == 108
                    && d[4] == 97 && d[5] == 116 && d[6] == 101);
                assert(i.len() == 8 && i[0] == 105 && i[1] == 100 && i[2] == 101 && i[3] == 110
                    && i[4] == 116 && i[5] == 105 && i[6] == 116 && i[7] == 121);
            }
            None
        }
    }

    /// What undoing this coding makes of `data`; `None` where its decoder
    /// rejects the bytes. The identity coding leaves them as they are.
    pub open spec fn undone(self, data: Seq<u8>) -> Option<Seq<u8>> {
        match self {
            ContentEncoding::Brotli => brotli_decoded(data),
            ContentEncoding::Gzip => gzip_decoded(data),
            ContentEncoding::Deflate => zlib_decoded(data),
            ContentEncoding::Identity => Some(data),
        }
    }

    /// Undoes this coding on `data`.
    pub fn decode(self, data: &[u8]) -> (r: Result<Vec<u8>, HttpError>)
        ensures
            match self.undone(data@) {
                Some(bytes) => r.is_ok() && r.unwrap()@ == bytes,
                None => r.is_err() && r.unwrap_err()@ == HttpFailure::CouldNotUncompress(self),
            },
    {
        let decoded = match self {
            ContentEncoding::Brotli => unbrotli(data),
            ContentEncoding::Gzip => gunzip(data),
            ContentEncoding::Deflate => inflate(data),
            ContentEncoding::Identity => {
                let mut copy: Vec<u8> = Vec::new();
                crate::text::push_all(&mut copy, data);
                assert(copy@ =~= data@);
                Some(copy)
            },
        };
        finish_decoding(self, decoded)
    }
}

/// Turns what a decoder of `encoding` handed back into the result of
/// decoding: the bytes, or the error that names the coding.
pub fn finish_decoding(encoding: ContentEncoding, decoded: Option<Vec<u8>>) -> (r: Result<
    Vec<u8>,
    HttpError,
>)
    ensures
        match decoded {
            Some(bytes) => r.is_ok() && r.unwrap()@ == bytes@,
            None => r.is_err() && r.unwrap_err()@ == HttpFailure::CouldNotUncompress(encoding),
        },
{
    match decoded {
        Some(bytes) => Ok(bytes),
        None => Err(HttpError::CouldNotUncompressResponse { encoding }),
    }
}

/// The number of bytes of `s` before its first comma; all of them where it
/// has none.
pub open spec fn first_comma(s: Seq<u8>) -> nat
    decreases s.len(),
{
    if s.len() == 0 || s[0] == 44u8 {
        0
    } else {
        1 + first_comma(s.skip(1))
    }
}

/// The codings that a header value lists: its comma-separated items, each
/// trimmed and read as a coding's name, in order. Where an item names no
/// known coding, the first such item, trimmed, is the error.
pub open spec fn listed_codings(value: Seq<u8>) -> Result<Seq<ContentEncoding>, Seq<u8>>
    decreases value.len(),
{
    let k = first_comma(value) as int;
    let token = trim(value.take(k));
    match ContentEncoding::named(token) {
        None => Err(token),
        Some(c) => if k >= value.len() {
            Ok(seq![c])
        } else {
            after(seq![c], listed_codings(value.skip(k + 1)))
        },
    }
}

/// `rest` with `done` put before its codings; an error stays as it is.
pub open spec fn after(done: Seq<ContentEncoding>, rest: Result<Seq<ContentEncoding>, Seq<u8>>) -> Result<
    Seq<ContentEncoding>,
    Seq<u8>,
> {
    match rest {
        Ok(more) => Ok(done + more),
        Err(token) => Err(token),
    }
}

pub proof fn lemma_first_comma(s: Seq<u8>, k: int)
    requires
        0 <= k <= s.len(),
        forall|j: int| 0 <= j < k ==> s[j] != 44u8,
        k == s.len() || s[k] == 44u8,
    ensures
        first_comma(s) == k,
    decreases k,
{
    if k > 0 {
        lemma_first_comma(s.skip(1), k - 1);
    }
}

/// Reads the codings that `value` lists from position `from` on, after the
/// codings `done` that were read before it.
pub fn parse_codings_from(value: &[u8], from: usize, done: Vec<ContentEncoding>) -> (r: Result<
    Vec<ContentEncoding>,
    HttpError,
>)
    requires
        from <= value@.len(),
    ensures
        match after(done@, listed_codings(value@.skip(from as int))) {
            Ok(codings) => r.is_ok() && r.unwrap()@ == codings,
            Err(token) => r.is_err() && r.unwrap_err()@ == HttpFailure::Unsupported(token),
        },
    decreases value@.len() - from,
{
    let n: usize = value.len();
    let ghost rest = value@.skip(from as int);
    let mut done = done;
    let mut to: usize = from;
    while to < n && value[to] != 44
        invariant
            n == value@.len(),
            from <= to <= n,
            forall|j: int| from <= j < to ==> value@[j] != 44u8,
        decreases n - to,
    {
        to = to + 1;
    }
    proof {
        lemma_first_comma(rest, to - from);
        assert(rest.take(to - from) =~= value@.subrange(from as int, to as int));
    }
    let token = trimmed(value, from, to);
    match ContentEncoding::parse(token.as_slice()) {
        None => Err(HttpError::UnsupportedContentEncoding { description: token }),
        Some(c) => {
            let ghost before = done@;
            done.push(c);
            assert(done@ =~= before + seq![c]);
            if to >= n {
                Ok(done)
            } else {
                proof {
                    assert(rest.skip(to - from + 1) =~= value@.skip(to + 1));
                    match listed_codings(value@.skip(to + 1)) {
                        Ok(more) => {
                            assert(before + (seq![c] + more) =~= before.push(c) + more);
                        },
                        Err(_) => {},
                    }
                }
                parse_codings_from(value, to + 1, done)
            }
        },
    }
}

/// Reads the codings that a header value lists.
pub fn parse_codings(value: &[u8]) -> (r: Result<Vec<ContentEncoding>, HttpError>)
    ensures
        match listed_codings(value@) {
            Ok(codings) => r.is_ok() && r.unwrap()@ == codings,
            Err(token) => r.is_err() && r.unwrap_err()@ == HttpFailure::Unsupported(token),
        },
{
    proof {
        assert(value@.skip(0) =~= value@);
        match listed_codings(value@) {
            Ok(codings) => {
                assert(Seq::<ContentEncoding>::empty() + codings =~= codings);
            },
            Err(_) => {},
        }
    }
    parse_codings_from(value, 0, Vec::new())
}

/// The position of the first header that records the content codings, if
/// there is one.
pub open spec fn encoding_header(headers: Seq<Header>) -> Option<int> {
    if exists|i: int| 0 <= i < headers.len() && names_encoding(#[trigger] headers[i]) {
        Some(
            choose|i: int|
                0 <= i < headers.len() && names_encoding(#[trigger] headers[i]) && forall|j: int|
                    0 <= j < i ==> !names_encoding(#[trigger] headers[j]),
        )
    } else {
        None
    }
}

impl Response {
    /// The codings recorded on this response, in the order in which they are
    /// undone: those listed by the first `content-encoding` header, none
    /// where there is no such header.
    pub open spec fn recorded_codings(self) -> Result<Seq<ContentEncoding>, Seq<u8>> {
        match encoding_header(self.headers@) {
            Some(i) => listed_codings(self.headers@[i].value_bytes()),
            None => Ok(Seq::empty()),
        }
    }

    /// Reads the codings recorded on this response.
    pub fn content_encoding(&self) -> (r: Result<Vec<ContentEncoding>, HttpError>)
        ensures
            match self.recorded_codings() {
                Ok(codings) => r.is_ok() && r.unwrap()@ == codings,
                Err(token) => r.is_err() && r.unwrap_err()@ == HttpFailure::Unsupported(token),
            },
    {
        let key: [u8; 16] = [99, 111, 110, 116, 101, 110, 116, 45, 101, 110, 99, 111, 100, 105, 110, 103];
        assert(key@ =~= encoding_header_name());
        let n: usize = self.headers.headers.len();
        let mut i: usize = 0;
        while i < n
            invariant
                n == self.headers@.len(),
                0 <= i <= n,
                key@ == encoding_header_name(),
                forall|j: int| 0 <= j < i ==> !names_encoding(#[trigger] self.headers@[j]),
            decreases n - i,
        {
            let header = &self.headers.headers[i];
            if equal_ignoring_case(header.name.as_str().as_bytes(), vstd::array::array_as_slice(&key)) {
                proof {
                    lemma_first_is(self.headers@, i as int);
                }
                return parse_codings(header.value.as_str().as_bytes());
            }
            i = i + 1;
        }
        Ok(Vec::new())
    }

    /// The body with every recorded coding undone, one after the other in the
    /// order recorded; the first failure where one occurs.
    pub open spec fn uncompressed(self) -> Result<Seq<u8>, HttpFailure> {
        match self.recorded_codings() {
            Ok(codings) => undo_all(codings, self.body@),
            Err(token) => Err(HttpFailure::Unsupported(token)),
        }
    }

    /// Decodes the body according to the codings recorded on this response.
    pub fn uncompress_body(&self) -> (r: Result<Vec<u8>, HttpError>)
        ensures
            match self.uncompressed() {
                Ok(bytes) => r.is_ok() && r.unwrap()@ == bytes,
                Err(failure) => r.is_err() && r.unwrap_err()@ == failure,
            },
    {
        let codings = match self.content_encoding() {
            Ok(codings) => codings,
            Err(e) => {
                return Err(e);
            },
        };
        let mut data: Vec<u8> = Vec::new();
        crate::text::push_all(&mut data, self.body.as_slice());
        assert(data@ =~= self.body@);
        assert(codings@.skip(0) =~= codings@);
        let n: usize = codings.len();
        let mut i: usize = 0;
        while i < n
            invariant
                n == codings@.len(),
                0 <= i <= n,
                self.recorded_codings() == Ok::<Seq<ContentEncoding>, Seq<u8>>(codings@),
                undo_all(codings@, self.body@) == undo_all(codings@.skip(i as int), data@),
            decreases n - i,
        {
            assert(codings@.skip(i as int).skip(1) =~= codings@.skip(i + 1));
            assert(codings@.skip(i as int)[0] == codings@[i as int]);
            match codings[i].decode(data.as_slice()) {
                Ok(bytes) => {
                    data = bytes;
                },
                Err(e) => {
                    return Err(e);
                },
            }
            i = i + 1;
        }
        Ok(data)
    }
}

/// `data` with each of `codings` undone, first to last; where a decoder
/// rejects its input, the failure that names its coding.
pub open spec fn undo_all(codings: Seq<ContentEncoding>, data: Seq<u8>) -> Result<Seq<u8>, HttpFailure>
    decreases codings.len(),
{
    if codings.len() == 0 {
        Ok(data)
    } else {
        match codings[0].undone(data) {
            Some(bytes) => undo_all(codings.skip(1), bytes),
            None => Err(HttpFailure::CouldNotUncompress(codings[0])),
        }
    }
}

/// Where header `i` records the content codings and none before it does, it
/// is the one that `encoding_header` picks.
pub proof fn lemma_first_is(headers: Seq<Header>, i: int)
    requires
        0 <= i < headers.len(),
        names_encoding(headers[i]),
        forall|j: int| 0 <= j < i ==> !names_encoding(#[trigger] headers[j]),
    ensures
        encoding_header(headers) == Some(i),
{
    let k = choose|k: int|
        0 <= k < headers.len() && names_encoding(#[trigger] headers[k]) && forall|j: int|
            0 <= j < k ==> !names_encoding(#[trigger] headers[j]);
    assert(k == i) by {
        if k < i {
            assert(!names_encoding(headers[k]));
        } else if i < k {
            assert(!names_encoding(headers[i]));
        }
    }
}

} // verus!
