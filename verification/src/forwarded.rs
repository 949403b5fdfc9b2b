//! The `Forwarded` header: which host a request says the client asked for.

use vstd::prelude::*;

use crate::message::{visible_text, H2Request, FORWARDED_HEADER};

verus! {

/// What a `Forwarded` header says, as far as the proxy reads it.
pub struct Forwarded {
    pub host: Option<String>,
}

/// The host that a request was forwarded for.
pub enum ForwardedHost {
    /// The header was read, or is missing, is no text or is malformed.
    Parsed(Option<String>),
    /// The header breaks off in its `for` list in a way that its parser does not survive.
    Overrun,
}

/// What `http_types::proxies::Forwarded::parse` makes of a text: nothing where it fails, and
/// otherwise the `host` parameter, where there is one.
pub uninterp spec fn forwarded(text: Seq<char>) -> Option<Option<Seq<char>>>;

/// Whether every character is visible ASCII.
pub open spec fn is_visible(text: Seq<char>) -> bool {
    forall|i: int| 0 <= i < text.len() ==> (' ' <= #[trigger] text[i] <= '~' || text[i] == '\t')
}

/// Whether the text goes on after a comma, and after blanks, with fewer characters than `for=`
/// has.
pub open spec fn short_after(text: Seq<char>, comma: int) -> bool {
    &&& 0 <= comma < text.len()
    &&& text[comma] == ','
    &&& forall|i: int|
        comma < i < text.len() - 3 ==> (#[trigger] text[i] == ' ' || text[i] == '\t')
}

/// The text up to a comma, with one more `for` parameter after the comma. The parser accepts it
/// exactly where that comma continues a `for` list.
pub open spec fn continued(text: Seq<char>, comma: int) -> Seq<char> {
    text.subrange(0, comma) + ",for=x"@
}

/// Whether a text breaks off in a `for` list, after a comma, before the next `for=` is
/// complete.
pub open spec fn overruns(text: Seq<char>) -> bool {
    exists|comma: int|
        #[trigger] short_after(text, comma) && forwarded(continued(text, comma)) is Some
}

/// The text of an optional string.
pub open spec fn text_view(text: Option<String>) -> Option<Seq<char>> {
    match text {
        Some(t) => Some(t@),
        None => None,
    }
}

/// The host of a parsed header.
pub open spec fn host_in(parsed: Option<Option<Seq<char>>>) -> Option<Seq<char>> {
    match parsed {
        Some(host) => host,
        None => None,
    }
}

/// The host that a request's `Forwarded` header names.
pub open spec fn forwarded_host(req: H2Request) -> Option<Seq<char>> {
    match req.text_of(FORWARDED_HEADER@) {
        Some(text) => host_in(forwarded(text)),
        None => None,
    }
}

/// Whether a request's `Forwarded` header breaks off in its `for` list.
pub open spec fn forwarded_overruns(req: H2Request) -> bool {
    req.text_of(FORWARDED_HEADER@) matches Some(text) && overruns(text)
}

/// Calls `http_types::proxies::Forwarded::parse` and, on what that gives, `host`. The result is
/// named. After each comma of a `for` list the parser takes four bytes of what follows, past
/// blanks, without asking whether there are four: a text that breaks off there is left out.
#[verifier::external_body]
fn forwarded_parse(text: &str) -> (parsed: Option<Forwarded>)
    requires
        is_visible(text@),
        !overruns(text@),
    ensures
        match parsed {
            Some(f) => forwarded(text@) == Some(text_view(f.host)),
            None => forwarded(text@) is None,
        },
{
    http_types::proxies::Forwarded::parse(text).ok().map(
        |f| Forwarded { host: f.host().map(|h| h.to_string()) },
    )
}

/// A text that goes on with a whole `for` parameter after its last comma does not break off.
proof fn lemma_continued_does_not_overrun(text: Seq<char>, comma: int)
    requires
        is_visible(text),
        0 <= comma < text.len(),
    ensures
        is_visible(continued(text, comma)),
        !overruns(continued(text, comma)),
{
    reveal_strlit(",for=x");
    let whole = continued(text, comma);
    assert(whole[comma] == ',');
    assert(whole[comma + 1] == 'f');
    assert forall|i: int| 0 <= i < whole.len() implies (' ' <= #[trigger] whole[i] <= '~'
        || whole[i] == '\t') by {
        if i < comma {
            assert(whole[i] == text[i]);
        } else {
            assert(whole[i] == ",for=x"@[i - comma]);
        }
    }
    assert forall|c: int| !(#[trigger] short_after(whole, c)) by {
        if short_after(whole, c) {
            if c < comma {
                assert(comma < whole.len() - 3);
            } else if c == comma {
                assert(comma + 1 < whole.len() - 3);
            } else {
                assert(whole[c] == ",for=x"@[c - comma]);
            }
        }
    }
}

/// Whether a text breaks off in a `for` list.
fn list_overruns(text: &str) -> (result: bool)
    requires
        is_visible(text@),
    ensures
        result == overruns(text@),
{
    let ghost chars = text@;
    assert(vstd::utf8::is_ascii_chars(chars)) by {
        assert forall|i: int| 0 <= i < chars.len() implies '\0' <= #[trigger] chars[i] <= '\u{7f}' by {
            assert(' ' <= chars[i] <= '~' || chars[i] == '\t');
        }
    }
    let bytes = text.as_bytes();
    proof {
        vstd::utf8::is_ascii_chars_encode_utf8(chars);
    }
    // Walks back from the end while what follows is blank but for the last three characters.
    let mut comma: usize = bytes.len();
    while comma > 0
        invariant
            chars == text@,
            is_visible(chars),
            vstd::utf8::is_ascii_chars(chars),
            comma <= chars.len() == bytes@.len(),
            forall|i: int| 0 <= i < chars.len() ==> #[trigger] chars[i] as u8 == bytes@[i],
            forall|i: int|
                comma <= i < chars.len() - 3 ==> (#[trigger] chars[i] == ' ' || chars[i] == '\t'),
            forall|c: int|
                comma <= c && #[trigger] short_after(chars, c) ==> forwarded(
                    continued(chars, c),
                ) is None,
        decreases comma,
    {
        comma -= 1;
        let c = bytes[comma] as char;
        assert(c == chars[comma as int]) by {
            assert(chars[comma as int] as u8 == bytes@[comma as int]);
            assert('\0' <= chars[comma as int] <= '\u{7f}');
        }
        if c == ',' {
            let mut whole = text.substring_ascii(0, comma).to_owned();
            whole.append(",for=x");
            assert(whole@ == continued(chars, comma as int));
            proof {
                lemma_continued_does_not_overrun(chars, comma as int);
            }
            if forwarded_parse(whole.as_str()).is_some() {
                assert(short_after(chars, comma as int));
                return true;
            }
        }
        if c != ' ' && c != '\t' && bytes.len() - comma > 3 {
            assert forall|p: int| #[trigger] short_after(chars, p) implies forwarded(
                continued(chars, p),
            ) is None by {
                if p < comma {
                    assert(chars[comma as int] == ' ' || chars[comma as int] == '\t');
                }
            }
            return false;
        }
    }
    false
}

/// The host in what the header's parser gave.
pub fn host_of(parsed: Option<Forwarded>) -> (host: Option<String>)
    ensures
        host == match parsed {
            Some(f) => f.host,
            None => None,
        },
{
    match parsed {
        Some(f) => f.host,
        None => None,
    }
}

/// The text of a header value is visible ASCII.
proof fn lemma_header_text_is_visible(req: H2Request, name: Seq<char>)
    ensures
        req.text_of(name) matches Some(text) ==> is_visible(text),
{
    if let Some(text) = req.text_of(name) {
        let bytes = crate::message::header_values(req.headers)[name][0];
        assert(visible_text(bytes) == Some(text));
        assert forall|i: int| 0 <= i < text.len() implies (' ' <= #[trigger] text[i] <= '~'
            || text[i] == '\t') by {
            assert(crate::message::visible_ascii(bytes[i]));
            assert(text[i] == bytes[i] as char);
        }
    }
}

/// Reads the host that a request was forwarded for: the `host` parameter of the first
/// `Forwarded` header, where that header is text and well-formed.
pub fn parse_forwarded_host(req: &H2Request) -> (host: Option<String>)
    requires
        !forwarded_overruns(*req),
    ensures
        text_view(host) == forwarded_host(*req),
{
    proof {
        reveal_strlit("forwarded");
        lemma_header_text_is_visible(*req, FORWARDED_HEADER@);
    }
    match req.header_text(FORWARDED_HEADER) {
        Some(text) => host_of(forwarded_parse(text)),
        None => None,
    }
}

/// Reads the host that a request was forwarded for, and says so where the header breaks off in
/// its `for` list.
pub fn checked_forwarded_host(req: &H2Request) -> (host: ForwardedHost)
    ensures
        match host {
            ForwardedHost::Parsed(h) => !forwarded_overruns(*req) && text_view(h)
                == forwarded_host(*req),
            ForwardedHost::Overrun => forwarded_overruns(*req),
        },
{
    proof {
        reveal_strlit("forwarded");
        lemma_header_text_is_visible(*req, FORWARDED_HEADER@);
    }
    match req.header_text(FORWARDED_HEADER) {
        Some(text) => {
            if list_overruns(text) {
                return ForwardedHost::Overrun;
            }
        },
        None => {},
    }
    ForwardedHost::Parsed(parse_forwarded_host(req))
}

} // verus!
