//! Writing the last response of a run: finding it, rendering it to bytes, and
//! handing the bytes to a destination.

use crate::decoding::{HttpError, HttpFailure};
use crate::error::{Error, ErrorView};
use crate::http::{Call, Response};
use crate::result::{EntryResult, HurlResult};
use crate::sink::{Output, OutputView, Pending, PendingView, Stdout, StdoutView};
use crate::text::push_all;
use vstd::prelude::*;

verus! {

/// The body to emit for `call`, the last call of `entry`: decoded where the
/// step says that it is still encoded, else the stored bytes as they are.
pub open spec fn body_bytes(entry: EntryResult, call: Call) -> Result<Seq<u8>, HttpFailure> {
    if entry.compressed {
        call.response.uncompressed()
    } else {
        Ok(call.response.body@)
    }
}

/// Whether `head` may stand before the body: nothing where headers are not
/// asked for; else a rendering of the status line and headers, and one more
/// line feed.
pub open spec fn is_head(response: Response, include_headers: bool, color: bool, head: Seq<u8>) -> bool {
    if include_headers {
        head.len() > 0 && head.last() == 10u8 && response.is_header_text(color, head.drop_last())
    } else {
        head.len() == 0
    }
}

/// The one head without styling.
pub open spec fn plain_head(response: Response, include_headers: bool) -> Seq<u8> {
    if include_headers {
        response.plain_header_text().push(10u8)
    } else {
        Seq::empty()
    }
}

/// The bytes to emit: `head`, then the body with nothing in between. Where
/// the body could not be decoded, the report of that and no bytes.
pub open spec fn rendered(head: Seq<u8>, body: Result<Seq<u8>, HttpFailure>) -> Result<
    Seq<u8>,
    ErrorView,
> {
    match body {
        Ok(bytes) => Ok(head + bytes),
        Err(failure) => Err(ErrorView::undecodable(failure)),
    }
}

/// Whether `out` is a rendering of `call` under the given flags.
pub open spec fn is_rendering(
    entry: EntryResult,
    call: Call,
    include_headers: bool,
    color: bool,
    out: Result<Seq<u8>, ErrorView>,
) -> bool {
    exists|head: Seq<u8>|
        is_head(call.response, include_headers, color, head) && out == #[trigger] rendered(
            head,
            body_bytes(entry, call),
        )
}

/// The mathematical value of a rendering result.
pub open spec fn outcome(r: Result<Vec<u8>, Error>) -> Result<Seq<u8>, ErrorView> {
    match r {
        Ok(bytes) => Ok(bytes@),
        Err(e) => Err(e@),
    }
}

/// The mathematical value of a decoding result.
pub open spec fn decoding_outcome(r: Result<Vec<u8>, HttpError>) -> Result<Seq<u8>, HttpFailure> {
    match r {
        Ok(bytes) => Ok(bytes@),
        Err(e) => Err(e@),
    }
}

/// The mathematical value of the result of a write.
pub open spec fn write_outcome(r: Result<Pending, Error>) -> Result<PendingView, ErrorView> {
    match r {
        Ok(pending) => Ok(pending@),
        Err(e) => Err(e@),
    }
}

/// The destination that is meant: the given one, the standard output stream
/// where none is given.
pub open spec fn destination(filename_out: Option<&Output>) -> OutputView {
    match filename_out {
        Some(out) => out@,
        None => OutputView::Stdout,
    }
}

/// Whether the rendering `out` was delivered: on success its bytes went to
/// `to` in one write; on failure the error is returned and the stream is as
/// it was.
pub open spec fn delivered(
    out: Result<Seq<u8>, ErrorView>,
    to: OutputView,
    before: StdoutView,
    after: StdoutView,
    r: Result<PendingView, ErrorView>,
) -> bool {
    match out {
        Ok(bytes) => r == Ok::<PendingView, ErrorView>(to.written(before, bytes).1) && after
            == to.written(before, bytes).0,
        Err(e) => r == Err::<PendingView, ErrorView>(e) && after == before,
    }
}

/// Whether a call on `result` that took the stream from `before` to `after`
/// and returned `r` wrote the last response of that run: where the run has
/// none, nothing happened; else a rendering of it was delivered.
pub open spec fn wrote_last_body(
    result: HurlResult,
    include_headers: bool,
    color: bool,
    to: OutputView,
    before: StdoutView,
    after: StdoutView,
    r: Result<PendingView, ErrorView>,
) -> bool {
    match result.spec_last_call() {
        None => r == Ok::<PendingView, ErrorView>(PendingView::Nothing) && after == before,
        Some((entry, call)) => exists|out: Result<Seq<u8>, ErrorView>|
            #[trigger] is_rendering(entry, call, include_headers, color, out) && delivered(
                out,
                to,
                before,
                after,
                r,
            ),
    }
}

/// Puts a head and a decoded body together, or reports why there is no body.
pub fn compose(head: Vec<u8>, body: Result<Vec<u8>, HttpError>) -> (r: Result<Vec<u8>, Error>)
    ensures
        outcome(r) == rendered(head@, decoding_outcome(body)),
{
    match body {
        Ok(bytes) => {
            let mut output = head;
            push_all(&mut output, bytes.as_slice());
            Ok(output)
        },
        Err(cause) => Err(Error::undecodable(cause)),
    }
}

/// Renders the response of `call`, the last call of `entry`: the status line
/// and headers where `include_headers` is set, styled where `color` is set,
/// then the body, decoded where `entry` says that it is still encoded.
pub fn render(entry: &EntryResult, call: &Call, include_headers: bool, color: bool) -> (r: Result<
    Vec<u8>,
    Error,
>)
    ensures
        is_rendering(*entry, *call, include_headers, color, outcome(r)),
        !color ==> outcome(r) == rendered(
            plain_head(call.response, include_headers),
            body_bytes(*entry, *call),
        ),
{
    let mut head: Vec<u8> = Vec::new();
    if include_headers {
        head = call.response.get_status_line_headers(color);
        let ghost text = head@;
        head.push(10u8);
        assert(head@.drop_last() =~= text);
    }
    let body = if entry.compressed {
        call.response.uncompress_body()
    } else {
        let mut bytes: Vec<u8> = Vec::new();
        push_all(&mut bytes, call.response.body.as_slice());
        assert(bytes@ =~= call.response.body@);
        Ok(bytes)
    };
    assert(decoding_outcome(body) == body_bytes(*entry, *call));
    assert(is_head(call.response, include_headers, color, head@));
    assert(!color ==> head@ =~= plain_head(call.response, include_headers));
    compose(head, body)
}

/// Hands `bytes` to `filename_out`, or to the standard output stream where
/// `filename_out` is `None`, in exactly one write.
pub fn emit(bytes: &[u8], filename_out: Option<&Output>, stdout: &mut Stdout) -> (pending: Pending)
    ensures
        final(stdout)@ == destination(filename_out).written(old(stdout)@, bytes@).0,
        pending@ == destination(filename_out).written(old(stdout)@, bytes@).1,
{
    match filename_out {
        Some(out) => out.write(bytes, stdout),
        None => Output::Stdout.write(bytes, stdout),
    }
}

/// Writes the last response of `result` to `filename_out`, or to the standard
/// output stream where `filename_out` is `None`. Where `include_headers` is
/// set, the status line and the headers are written before the body. A run
/// without any call writes nothing and succeeds. Nothing is written where
/// rendering fails.
pub fn write_last_body(
    result: &HurlResult,
    include_headers: bool,
    color: bool,
    filename_out: Option<&Output>,
    stdout: &mut Stdout,
) -> (r: Result<Pending, Error>)
    ensures
        wrote_last_body(
            *result,
            include_headers,
            color,
            destination(filename_out),
            old(stdout)@,
            final(stdout)@,
            write_outcome(r),
        ),
        !color ==> match result.spec_last_call() {
            None => true,
            Some((entry, call)) => delivered(
                rendered(plain_head(call.response, include_headers), body_bytes(entry, call)),
                destination(filename_out),
                old(stdout)@,
                final(stdout)@,
                write_outcome(r),
            ),
        },
{
    let (entry, call) = match result.last_call() {
        None => {
            return Ok(Pending::Nothing);
        },
        Some(found) => found,
    };
    let output = match render(entry, call, include_headers, color) {
        Ok(output) => output,
        Err(e) => {
            assert(is_rendering(*entry, *call, include_headers, color, Err(e@)));
            return Err(e);
        },
    };
    assert(is_rendering(*entry, *call, include_headers, color, Ok(output@)));
    Ok(emit(output.as_slice(), filename_out, stdout))
}

/// A run without steps, or whose last step issued no call, has nothing
/// written for it: the stream stays as it was, nothing is pending, and the
/// call succeeds.
pub proof fn law_no_call_writes_nothing(
    result: HurlResult,
    include_headers: bool,
    color: bool,
    to: OutputView,
    before: StdoutView,
    after: StdoutView,
    r: Result<PendingView, ErrorView>,
)
    requires
        result.entries@.len() == 0 || result.entries@.last().calls@.len() == 0,
        wrote_last_body(result, include_headers, color, to, before, after, r),
    ensures
        r == Ok::<PendingView, ErrorView>(PendingView::Nothing),
        after == before,
{
}

/// Without styling there is exactly one rendering: the plain head, then the
/// body.
pub proof fn law_plain_rendering_is_unique(
    entry: EntryResult,
    call: Call,
    include_headers: bool,
    out: Result<Seq<u8>, ErrorView>,
)
    ensures
        is_rendering(entry, call, include_headers, false, out) <==> out == rendered(
            plain_head(call.response, include_headers),
            body_bytes(entry, call),
        ),
{
    let plain = plain_head(call.response, include_headers);
    if is_rendering(entry, call, include_headers, false, out) {
        let head = choose|head: Seq<u8>|
            is_head(call.response, include_headers, false, head) && out == #[trigger] rendered(
                head,
                body_bytes(entry, call),
            );
        if include_headers {
            assert(head =~= head.drop_last().push(10u8));
        }
        assert(head =~= plain);
    }
    if out == rendered(plain, body_bytes(entry, call)) {
        if include_headers {
            assert(plain.drop_last() =~= call.response.plain_header_text());
        }
        assert(is_head(call.response, include_headers, false, plain));
    }
}

/// Where the step is not marked as compressed, every rendering succeeds and
/// ends with the stored body, byte for byte.
pub proof fn law_stored_body_is_tail(
    entry: EntryResult,
    call: Call,
    include_headers: bool,
    color: bool,
    out: Result<Seq<u8>, ErrorView>,
)
    requires
        !entry.compressed,
        is_rendering(entry, call, include_headers, color, out),
    ensures
        match out {
            Ok(bytes) => bytes.len() >= call.response.body@.len() && bytes.skip(
                bytes.len() - call.response.body@.len(),
            ) == call.response.body@,
            Err(_) => false,
        },
{
    let head = choose|head: Seq<u8>|
        is_head(call.response, include_headers, color, head) && out == #[trigger] rendered(
            head,
            body_bytes(entry, call),
        );
    let body = call.response.body@;
    assert((head + body).skip(head.len() as int) =~= body);
}

/// With headers and without styling, the rendering is the status line
/// (version, space, status code, line feed), then one line per header in the
/// order recorded, repeated names included (name, colon, space, value, line
/// feed), then an empty line, then the body.
pub proof fn law_headers_precede_body(
    entry: EntryResult,
    call: Call,
    out: Result<Seq<u8>, ErrorView>,
)
    requires
        is_rendering(entry, call, true, false, out),
    ensures
        match body_bytes(entry, call) {
            Ok(body) => out == Ok::<Seq<u8>, ErrorView>(
                call.response.version.text() + seq![32u8] + crate::text::decimal(
                    call.response.status as nat,
                ) + seq![10u8] + crate::http::header_lines(
                    call.response.plain_names(),
                    call.response.headers@,
                    call.response.headers@.len() as int,
                ) + seq![10u8] + body,
            ),
            Err(failure) => out == Err::<Seq<u8>, ErrorView>(ErrorView::undecodable(failure)),
        },
{
    let head = choose|head: Seq<u8>|
        is_head(call.response, true, false, head) && out == #[trigger] rendered(
            head,
            body_bytes(entry, call),
        );
    assert(head =~= head.drop_last().push(10u8));
    let lines = crate::http::header_lines(
        call.response.plain_names(),
        call.response.headers@,
        call.response.headers@.len() as int,
    );
    assert(head =~= call.response.status_line() + seq![10u8] + lines + seq![10u8]);
}

/// In the lines of a plain header block, line `i` is header `i`: the block of
/// the first `n + 1` headers is that of the first `n`, then the name of
/// header `n`, a colon, a space, its value and a line feed.
pub proof fn law_header_lines_in_order(response: Response, n: int)
    requires
        0 <= n < response.headers@.len(),
    ensures
        crate::http::header_lines(response.plain_names(), response.headers@, n + 1)
            == crate::http::header_lines(response.plain_names(), response.headers@, n)
            + response.headers@[n].name_bytes() + seq![58u8, 32u8]
            + response.headers@[n].value_bytes() + seq![10u8],
{
    let before = crate::http::header_lines(response.plain_names(), response.headers@, n);
    let line = crate::http::header_line(
        response.headers@[n].name_bytes(),
        response.headers@[n].value_bytes(),
    );
    assert(before + line =~= before + response.headers@[n].name_bytes() + seq![58u8, 32u8]
        + response.headers@[n].value_bytes() + seq![10u8]);
}

/// Without headers, the rendering is the body and nothing else: the stored
/// bytes, or the decoded ones where the step is marked as compressed.
pub proof fn law_body_alone(
    entry: EntryResult,
    call: Call,
    color: bool,
    out: Result<Seq<u8>, ErrorView>,
)
    requires
        is_rendering(entry, call, false, color, out),
    ensures
        match body_bytes(entry, call) {
            Ok(bytes) => out == Ok::<Seq<u8>, ErrorView>(bytes),
            Err(failure) => out == Err::<Seq<u8>, ErrorView>(ErrorView::undecodable(failure)),
        },
{
    let head = choose|head: Seq<u8>|
        is_head(call.response, false, color, head) && out == #[trigger] rendered(
            head,
            body_bytes(entry, call),
        );
    match body_bytes(entry, call) {
        Ok(bytes) => {
            assert(head + bytes =~= bytes);
        },
        Err(_) => {},
    }
}

/// Where the last step is marked as compressed and its body cannot be
/// decoded, the call fails with the report of that, and the stream is as it
/// was and nothing is pending: no byte reaches any destination.
pub proof fn law_failed_decoding_writes_nothing(
    result: HurlResult,
    include_headers: bool,
    color: bool,
    to: OutputView,
    before: StdoutView,
    after: StdoutView,
    r: Result<PendingView, ErrorView>,
)
    requires
        result.spec_last_call().is_some(),
        result.spec_last_call().unwrap().0.compressed,
        result.spec_last_call().unwrap().1.response.uncompressed().is_err(),
        wrote_last_body(result, include_headers, color, to, before, after, r),
    ensures
        match result.spec_last_call().unwrap().1.response.uncompressed() {
            Ok(_) => false,
            Err(failure) => r == Err::<PendingView, ErrorView>(ErrorView::undecodable(failure)),
        },
        after == before,
{
}

} // verus!
