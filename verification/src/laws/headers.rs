//! What is read of a request's headers, byte by byte.

use vstd::prelude::*;

use crate::forwarded::{
    forwarded, forwarded_host, forwarded_overruns, is_visible, overruns, text_view,
};
use crate::inbound::{carried, traceparent_of};
use crate::message::{header_values, visible_text, H2Request};
use crate::response::StatusCode;
use crate::serve::baggage_of;
use crate::traceparent::{
    lemma_traceparent_is_read_back, lower_case, lower_case_char, traceparent_text, TraceParent,
};

verus! {

/// A text of printable ASCII characters and tabs is read from its bytes as it is.
pub proof fn lemma_text_is_read_back(text: Seq<char>, bytes: Seq<u8>)
    requires
        bytes.len() == text.len(),
        forall|i: int| 0 <= i < text.len() ==> #[trigger] bytes[i] as int == text[i] as int,
        forall|i: int|
            0 <= i < text.len() ==> (' ' <= #[trigger] text[i] <= '~' || text[i] == '\t'),
    ensures
        visible_text(bytes) == Some(text),
        is_visible(text),
{
    assert forall|i: int| 0 <= i < bytes.len() implies (32 <= #[trigger] bytes[i] < 127 || bytes[i]
        == 9) && bytes[i] as char == text[i] by {
        assert(' ' <= text[i] <= '~' || text[i] == '\t');
    }
    assert(bytes.map_values(|b: u8| b as char) =~= text);
}

/// Bytes of which any is neither a printable ASCII character nor a tab are no text.
pub proof fn lemma_other_bytes_are_no_text(bytes: Seq<u8>, i: int)
    requires
        0 <= i < bytes.len(),
        bytes[i] < 32 || 127 <= bytes[i],
        bytes[i] != 9,
    ensures
        visible_text(bytes) is None,
{
}

/// The text of a header is that of its first value, and a header that is missing has none.
pub proof fn lemma_first_value_counts(req: H2Request, name: Seq<char>)
    ensures
        header_values(req.headers).contains_key(name) ==> req.text_of(name) == visible_text(
            header_values(req.headers)[name][0],
        ),
        !header_values(req.headers).contains_key(name) ==> req.text_of(name) is None,
{
}

/// A request carries a trace context exactly where the first value of its `traceparent` header
/// spells that trace context, whatever the case of the letters.
pub proof fn lemma_carried_trace_context(req: H2Request, t: TraceParent)
    ensures
        carried(req) == Some(t) <==> {
            &&& header_values(req.headers).contains_key("traceparent"@)
            &&& lower_case(
                Seq::new(
                    header_values(req.headers)["traceparent"@][0].len(),
                    |i: int| header_values(req.headers)["traceparent"@][0][i] as char,
                ),
            ) == traceparent_text(t)
        },
{
    let bytes = header_values(req.headers)["traceparent"@][0];
    let chars = Seq::new(
        bytes.len(),
        |i: int| header_values(req.headers)["traceparent"@][0][i] as char,
    );
    assert(bytes.map_values(|b: u8| b as char) =~= chars);
    lemma_traceparent_is_read_back(chars, t);
    if lower_case(chars) == traceparent_text(t) {
        crate::traceparent::lemma_traceparent_text_is_plain(t);
        assert forall|i: int| 0 <= i < bytes.len() implies crate::message::visible_ascii(
            #[trigger] bytes[i],
        ) by {
            assert(lower_case(chars)[i] == lower_case_char(chars[i]));
            let c = traceparent_text(t)[i];
            assert('-' <= c <= 'f');
        }
    }
}

/// The trace context of a request is the one that it carries, whatever the fresh one is. The fresh
/// one is taken only where the request carries none.
pub proof fn lemma_fresh_trace_context_is_last_resort(
    req: H2Request,
    t: TraceParent,
    fresh: TraceParent,
)
    ensures
        carried(req) == Some(t) ==> traceparent_of(req, fresh) == t,
        carried(req) is None ==> traceparent_of(req, fresh) == fresh,
        !header_values(req.headers).contains_key("traceparent"@) ==> traceparent_of(req, fresh)
            == fresh,
{
}

/// The host that a request was forwarded for is what the parser of the header finds in the text of
/// the first value of its `forwarded` header. There is none where that header is missing or is no
/// text.
pub proof fn lemma_forwarded_host(req: H2Request, bytes: Seq<u8>, text: Seq<char>)
    requires
        bytes == header_values(req.headers)["forwarded"@][0],
        text == Seq::new(bytes.len(), |i: int| bytes[i] as char),
    ensures
        !header_values(req.headers).contains_key("forwarded"@) ==> {
            &&& forwarded_host(req) is None
            &&& !forwarded_overruns(req)
        },
        (exists|i: int|
            0 <= i < bytes.len() && !(32 <= #[trigger] bytes[i] < 127 || bytes[i] == 9)) ==> {
            &&& forwarded_host(req) is None
            &&& !forwarded_overruns(req)
        },
        header_values(req.headers).contains_key("forwarded"@) && (forall|i: int|
            0 <= i < bytes.len() ==> (32 <= #[trigger] bytes[i] < 127 || bytes[i] == 9)) ==> {
            &&& forwarded(text) is None ==> forwarded_host(req) is None
            &&& forwarded(text) matches Some(host) ==> forwarded_host(req) == host
            &&& forwarded_overruns(req) == overruns(text)
        },
{
    assert(bytes.map_values(|b: u8| b as char) =~= text);
    if exists|i: int| 0 <= i < bytes.len() && !(32 <= #[trigger] bytes[i] < 127 || bytes[i] == 9) {
        let i = choose|i: int|
            0 <= i < bytes.len() && !(32 <= #[trigger] bytes[i] < 127 || bytes[i] == 9);
        assert(!crate::message::visible_ascii(bytes[i]));
    }
}

/// A text breaks off in a `for` list where one of its commas would continue such a list and at most
/// three characters follow it, past blanks.
pub proof fn lemma_text_breaks_off(text: Seq<char>, comma: int)
    requires
        0 <= comma < text.len(),
        text[comma] == ',',
        forall|i: int|
            comma < i < text.len() - 3 ==> (#[trigger] text[i] == ' ' || text[i] == '\t'),
        forwarded(text.subrange(0, comma) + ",for=x"@) is Some,
    ensures
        overruns(text),
{
    assert(crate::forwarded::short_after(text, comma));
    assert(crate::forwarded::continued(text, comma) == text.subrange(0, comma) + ",for=x"@);
}

/// No other text breaks off there.
pub proof fn lemma_text_does_not_break_off(text: Seq<char>)
    requires
        forall|comma: int|
            0 <= comma < text.len() && #[trigger] text[comma] == ',' && forwarded(
                text.subrange(0, comma) + ",for=x"@,
            ) is Some ==> exists|i: int|
                comma < i < text.len() - 3 && #[trigger] text[i] != ' ' && text[i] != '\t',
    ensures
        !overruns(text),
{
    if overruns(text) {
        let comma = choose|comma: int|
            #[trigger] crate::forwarded::short_after(text, comma) && forwarded(
                crate::forwarded::continued(text, comma),
            ) is Some;
        assert(text[comma] == ',');
        assert(crate::forwarded::continued(text, comma) == text.subrange(0, comma) + ",for=x"@);
    }
}

/// An optional text is seen as the text that it holds.
pub proof fn lemma_optional_text(text: Option<String>)
    ensures
        text is None <==> text_view(text) is None,
        text matches Some(t) ==> text_view(text) == Some(t@),
{
}

/// What a request says of its own workload is all values of its `baggage` header, in their order,
/// and nothing where that header is missing.
pub proof fn lemma_baggage_values(req: H2Request)
    ensures
        header_values(req.headers).contains_key("baggage"@) ==> baggage_of(req) == header_values(
            req.headers,
        )["baggage"@],
        !header_values(req.headers).contains_key("baggage"@) ==> baggage_of(req) == Seq::<
            Seq<u8>,
        >::empty(),
{
}

/// Each status code has its number, by which success, the client's fault and the server's fault
/// are told apart.
pub proof fn lemma_status_numbers(status: StatusCode)
    ensures
        status == StatusCode::OK <==> status.number() == 200,
        status == StatusCode::BadRequest <==> status.number() == 400,
        status == StatusCode::Unauthorized <==> status.number() == 401,
        status == StatusCode::NotFound <==> status.number() == 404,
        status == StatusCode::ServiceUnavailable <==> status.number() == 503,
{
}

} // verus!
