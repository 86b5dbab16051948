//! The lines that the request/response logger writes: what is shown of a
//! request and of a response, and in which form. Header values and payloads
//! are quoted, so that nothing a client sends can forge a line, and the
//! values of credentials fields are masked.

use vstd::prelude::*;
use crate::headers::{
    credential_name, find_header, first_value, header_list, is_credential,
    lemma_redacted_lookup_is_masked,
    lemma_redaction_hides_credentials, mask, redact_headers, redacted, Header, HeaderView,
};
use crate::request::{same_but_credentials_head, target_text, RequestHead, RequestHeadView};
use crate::text::{
    decimal, decimal_string, lemma_decimal_single_line, lemma_quoted_single_line,
    lemma_single_line_concat, quote, quoted, single_line,
};

verus! {

/// The texts of a list of lines.
pub open spec fn line_list(lines: Seq<String>) -> Seq<Seq<char>> {
    Seq::new(lines.len(), |i: int| lines[i]@)
}

/// One header field as it is logged: the name, a colon, the quoted value.
pub open spec fn field_text(field: HeaderView) -> Seq<char> {
    field.0 + ": "@ + quoted(field.1)
}

/// The fields of a list as they are logged, separated by commas.
pub open spec fn joined_fields(headers: Seq<HeaderView>) -> Seq<char>
    decreases headers.len(),
{
    if headers.len() == 0 {
        Seq::empty()
    } else if headers.len() == 1 {
        field_text(headers[0])
    } else {
        joined_fields(headers.drop_last()) + ", "@ + field_text(headers.last())
    }
}

/// A header list as it is logged: its fields between braces.
pub open spec fn headers_text(headers: Seq<HeaderView>) -> Seq<char> {
    "{"@ + joined_fields(headers) + "}"@
}

/// The line for a value that may be absent: none where it is.
pub open spec fn optional_line(label: Seq<char>, value: Option<Seq<char>>) -> Seq<Seq<char>> {
    match value {
        Some(text) => seq![label + ": "@ + quoted(text)],
        None => Seq::empty(),
    }
}

/// The lines that are logged for a request whose body has been read as the
/// text `payload`: a start marker; the headers; user agent, forwarding
/// information, peer address and credentials, each where the request has
/// it; method and target; protocol version; the payload, quoted. Header
/// values are taken from the redacted list, so that credentials are never
/// shown.
pub open spec fn request_lines(head: RequestHeadView, payload: Seq<char>) -> Seq<Seq<char>> {
    let shown = redacted(head.headers);
    seq!["----- Start Request"@, "headers: "@ + headers_text(shown)] + optional_line(
        "user-agent"@,
        first_value(shown, "user-agent"@),
    ) + optional_line("forwarded"@, first_value(shown, "forwarded"@)) + optional_line(
        "ip"@,
        head.peer,
    ) + optional_line("authorization"@, first_value(shown, "authorization"@)) + seq![
        "uri: "@ + head.method + " "@ + target_text(head.path, head.query),
        "version: "@ + head.version,
        "request payload: "@ + quoted(payload),
    ]
}

/// The line that closes the log of a request, with the time it took.
pub open spec fn closing_line(elapsed_ms: nat) -> Seq<char> {
    "----- END Request in "@ + decimal(elapsed_ms) + " ms"@
}

/// The closing line of a request that failed: the time it took, what
/// failed, and, quoted, the reason reported by the transport.
pub open spec fn failure_line(elapsed_ms: nat, message: Seq<char>, reason: Seq<char>) -> Seq<
    char,
> {
    closing_line(elapsed_ms) + ": "@ + message + ": "@ + quoted(reason)
}

/// The one line that is logged for a request that failed.
pub open spec fn failure_lines(elapsed_ms: nat, message: Seq<char>, reason: Seq<char>) -> Seq<
    Seq<char>,
> {
    seq![failure_line(elapsed_ms, message, reason)]
}

/// The lines that are logged for a response whose body has been read as the
/// text `payload`: the payload, quoted, and the closing line.
pub open spec fn response_lines(payload: Seq<char>, elapsed_ms: nat) -> Seq<Seq<char>> {
    seq!["response payload: "@ + quoted(payload), closing_line(elapsed_ms)]
}

/// The view of a text that may be absent.
pub open spec fn optional_text(text: Option<String>) -> Option<Seq<char>> {
    match text {
        Some(t) => Some(t@),
        None => None,
    }
}

fn push_line(lines: &mut Vec<String>, line: String)
    ensures
        line_list(final(lines)@) == line_list(old(lines)@).push(line@),
{
    lines.push(line);
    assert(line_list(lines@) =~= line_list(old(lines)@).push(line@));
}

fn push_optional(lines: &mut Vec<String>, label: &str, value: &Option<String>)
    ensures
        line_list(final(lines)@) == line_list(old(lines)@) + optional_line(
            label@,
            optional_text(*value),
        ),
{
    match value {
        Some(text) => {
            let mut line = String::from_str(label);
            line.append(": ");
            let quoted = quote(text.as_str());
            line.append(quoted.as_str());
            push_line(lines, line);
            assert(line_list(old(lines)@).push(line@) =~= line_list(old(lines)@) + seq![line@]);
        },
        None => {
            assert(line_list(old(lines)@) + Seq::<Seq<char>>::empty() =~= line_list(old(lines)@));
        },
    }
}

/// Renders a header list for the log.
fn render_headers(headers: &Vec<Header>) -> (out: String)
    ensures
        out@ == headers_text(header_list(headers@)),
{
    let ghost all = header_list(headers@);
    let mut out = String::from_str("{");
    let ghost mut joined: Seq<char> = Seq::empty();
    let mut i: usize = 0;
    assert(all.take(0).len() == 0);
    while i < headers.len()
        invariant
            i <= headers.len(),
            all == header_list(headers@),
            joined == joined_fields(all.take(i as int)),
            out@ == "{"@ + joined,
        decreases headers.len() - i,
    {
        let ghost before = joined;
        let ghost next = all.take(i + 1);
        assert(next.drop_last() == all.take(i as int));
        assert(next.last() == headers@[i as int]@);
        if i > 0 {
            out.append(", ");
            proof {
                joined = joined + ", "@;
            }
        }
        out.append(headers[i].name.as_str());
        out.append(": ");
        let quoted = quote(headers[i].value.as_str());
        out.append(quoted.as_str());
        proof {
            joined = joined + field_text(headers@[i as int]@);
            if i == 0 {
                assert(before == Seq::<char>::empty());
                assert(next[0] == headers@[0]@);
                assert(joined =~= field_text(next[0]));
            }
            assert(joined =~= joined_fields(next));
            assert(out@ =~= "{"@ + joined);
        }
        i = i + 1;
    }
    assert(all.take(i as int) == all);
    out.append("}");
    out
}

/// The closing line of a request.
fn render_closing(elapsed_ms: u64) -> (out: String)
    ensures
        out@ == closing_line(elapsed_ms as nat),
{
    let mut out = String::from_str("----- END Request in ");
    let digits = decimal_string(elapsed_ms);
    out.append(digits.as_str());
    out.append(" ms");
    out
}

/// The line that shows a payload, after its label.
fn render_payload(label: &str, payload: &str) -> (out: String)
    ensures
        out@ == label@ + quoted(payload@),
{
    let mut out = String::from_str(label);
    let shown = quote(payload);
    out.append(shown.as_str());
    out
}

/// The lines to log for a request whose body has been read as the text
/// `payload`.
pub fn request_log(head: &RequestHead, payload: &str) -> (lines: Vec<String>)
    ensures
        line_list(lines@) == request_lines(head@, payload@),
{
    let shown = redact_headers(&head.headers);
    let mut lines: Vec<String> = Vec::new();
    push_line(&mut lines, String::from_str("----- Start Request"));
    let mut listing = String::from_str("headers: ");
    let rendered = render_headers(&shown);
    listing.append(rendered.as_str());
    push_line(&mut lines, listing);
    assert(line_list(lines@) =~= seq![
        "----- Start Request"@,
        "headers: "@ + headers_text(redacted(head@.headers)),
    ]);
    let agent = find_header(&shown, "user-agent");
    push_optional(&mut lines, "user-agent", &agent);
    let forwarded = find_header(&shown, "forwarded");
    push_optional(&mut lines, "forwarded", &forwarded);
    push_optional(&mut lines, "ip", &head.peer);
    let credentials = find_header(&shown, "authorization");
    push_optional(&mut lines, "authorization", &credentials);
    let ghost prefix = line_list(lines@);
    let mut target = String::from_str("uri: ");
    target.append(head.method.as_str());
    target.append(" ");
    let written = head.target();
    target.append(written.as_str());
    push_line(&mut lines, target);
    let mut version = String::from_str("version: ");
    version.append(head.version.as_str());
    push_line(&mut lines, version);
    let shown = render_payload("request payload: ", payload);
    push_line(&mut lines, shown);
    assert(line_list(lines@) =~= prefix + seq![
        "uri: "@ + head@.method + " "@ + target_text(head@.path, head@.query),
        "version: "@ + head@.version,
        "request payload: "@ + quoted(payload@),
    ]);
    lines
}

/// The lines to log for a response whose body has been read as the text
/// `payload`.
pub fn response_log(payload: &str, elapsed_ms: u64) -> (lines: Vec<String>)
    ensures
        line_list(lines@) == response_lines(payload@, elapsed_ms as nat),
{
    let mut lines: Vec<String> = Vec::new();
    push_line(&mut lines, render_payload("response payload: ", payload));
    push_line(&mut lines, render_closing(elapsed_ms));
    assert(line_list(lines@) =~= response_lines(payload@, elapsed_ms as nat));
    lines
}

/// The line to log for a request that failed after `elapsed_ms`
/// milliseconds: the closing line, with what failed and why.
pub fn failure_log(elapsed_ms: u64, message: &str, reason: &str) -> (lines: Vec<String>)
    ensures
        line_list(lines@) == failure_lines(elapsed_ms as nat, message@, reason@),
{
    let mut line = render_closing(elapsed_ms);
    line.append(": ");
    line.append(message);
    line.append(": ");
    let shown = quote(reason);
    line.append(shown.as_str());
    let mut lines: Vec<String> = Vec::new();
    push_line(&mut lines, line);
    assert(line_list(lines@) =~= failure_lines(elapsed_ms as nat, message@, reason@));
    lines
}

/// Redaction: what is logged for a request does not depend on the values of
/// its credentials fields. Two requests that differ only there are logged
/// with the same lines, so no line can give the credentials away.
pub proof fn lemma_request_log_hides_credentials(
    a: RequestHeadView,
    b: RequestHeadView,
    payload: Seq<char>,
)
    requires
        same_but_credentials_head(a, b),
    ensures
        request_lines(a, payload) == request_lines(b, payload),
{
    lemma_redaction_hides_credentials(a.headers, b.headers);
}

/// Redaction: a request with a credentials field is logged with a line that
/// shows the mask in the place of the credentials.
pub proof fn lemma_request_log_shows_mask(head: RequestHeadView, payload: Seq<char>)
    requires
        first_value(head.headers, credential_name()) is Some,
    ensures
        request_lines(head, payload).contains("authorization"@ + ": "@ + quoted(mask())),
{
    lemma_redacted_lookup_is_masked(head.headers);
    let shown = redacted(head.headers);
    let front = seq!["----- Start Request"@, "headers: "@ + headers_text(shown)]
        + optional_line("user-agent"@, first_value(shown, "user-agent"@)) + optional_line(
        "forwarded"@,
        first_value(shown, "forwarded"@),
    ) + optional_line("ip"@, head.peer);
    let line = "authorization"@ + ": "@ + quoted(mask());
    let lines = request_lines(head, payload);
    assert(optional_line("authorization"@, first_value(shown, "authorization"@)) == seq![line]);
    assert(lines[front.len() as int] == line);
}

/// Whether `part` occurs in `text` as a run of consecutive characters.
pub open spec fn occurs_in(part: Seq<char>, text: Seq<char>) -> bool {
    exists|k: int|
        0 <= k && k + part.len() <= text.len() && #[trigger] text.subrange(k, k + part.len())
            == part
}

/// A request head with the values of its credentials fields taken out.
pub open spec fn without_credentials(head: RequestHeadView) -> RequestHeadView {
    RequestHeadView {
        headers: Seq::new(
            head.headers.len(),
            |i: int|
                if is_credential(head.headers[i].0) {
                    (head.headers[i].0, Seq::<char>::empty())
                } else {
                    head.headers[i]
                },
        ),
        ..head
    }
}

/// Redaction, read as a statement on the lines themselves: a text that
/// occurs in no line logged for the request without its credentials occurs
/// in no line logged for the request. So the value of a credentials field
/// appears in a line only where it is also found in what is logged of the
/// rest of the request: in another field, in the payload, in a label, or in
/// the mask.
pub proof fn lemma_credential_is_not_logged(
    head: RequestHeadView,
    payload: Seq<char>,
    secret: Seq<char>,
)
    requires
        forall|i: int|
            0 <= i < request_lines(without_credentials(head), payload).len() ==> !occurs_in(
                secret,
                #[trigger] request_lines(without_credentials(head), payload)[i],
            ),
    ensures
        forall|i: int|
            0 <= i < request_lines(head, payload).len() ==> !occurs_in(
                secret,
                #[trigger] request_lines(head, payload)[i],
            ),
{
    lemma_request_log_hides_credentials(head, without_credentials(head), payload);
}

/// Lines none of which holds a line feed.
pub open spec fn single_lines(lines: Seq<Seq<char>>) -> bool {
    forall|i: int| 0 <= i < lines.len() ==> single_line(#[trigger] lines[i])
}

/// A request head whose method, path, query, version and header names hold
/// no line feed, as is true of every head that was parsed from a request.
pub open spec fn plain_head(head: RequestHeadView) -> bool {
    &&& single_line(head.method)
    &&& single_line(head.path)
    &&& head.query matches Some(query) ==> single_line(query)
    &&& single_line(head.version)
    &&& forall|i: int| 0 <= i < head.headers.len() ==> single_line((#[trigger] head.headers[i]).0)
}

/// Joining two lists of single lines gives a list of single lines.
pub proof fn lemma_single_lines_concat(a: Seq<Seq<char>>, b: Seq<Seq<char>>)
    requires
        single_lines(a),
        single_lines(b),
    ensures
        single_lines(a + b),
{
    assert forall|i: int| 0 <= i < (a + b).len() implies single_line(#[trigger] (a + b)[i]) by {
        if i < a.len() {
            assert((a + b)[i] == a[i]);
        } else {
            assert((a + b)[i] == b[i - a.len()]);
        }
    }
}

/// A logged field is a single line where its name is.
pub proof fn lemma_field_single_line(field: HeaderView)
    requires
        single_line(field.0),
    ensures
        single_line(field_text(field)),
{
    reveal_strlit(": ");
    lemma_quoted_single_line(field.1);
    lemma_single_line_concat(field.0, ": "@);
    lemma_single_line_concat(field.0 + ": "@, quoted(field.1));
}

/// A logged header list is a single line where the names of its fields are.
pub proof fn lemma_joined_single_line(headers: Seq<HeaderView>)
    requires
        forall|i: int| 0 <= i < headers.len() ==> single_line((#[trigger] headers[i]).0),
    ensures
        single_line(joined_fields(headers)),
    decreases headers.len(),
{
    reveal_strlit(", ");
    if headers.len() == 1 {
        lemma_field_single_line(headers[0]);
    } else if headers.len() > 1 {
        let front = headers.drop_last();
        assert forall|i: int| 0 <= i < front.len() implies single_line((#[trigger] front[i]).0) by {
            assert(front[i] == headers[i]);
        }
        lemma_joined_single_line(front);
        lemma_field_single_line(headers.last());
        lemma_single_line_concat(joined_fields(front), ", "@);
        lemma_single_line_concat(joined_fields(front) + ", "@, field_text(headers.last()));
    }
}

/// The line of an optional value is a single line where its label is.
pub proof fn lemma_optional_single_line(label: Seq<char>, value: Option<Seq<char>>)
    requires
        single_line(label),
    ensures
        single_lines(optional_line(label, value)),
{
    reveal_strlit(": ");
    if let Some(text) = value {
        lemma_quoted_single_line(text);
        lemma_single_line_concat(label, ": "@);
        lemma_single_line_concat(label + ": "@, quoted(text));
    }
}

/// No forged lines: whatever the values of the header fields, the peer
/// address and the payload hold, each line that is logged for a request is
/// a single line.
pub proof fn lemma_request_lines_are_single(head: RequestHeadView, payload: Seq<char>)
    requires
        plain_head(head),
    ensures
        single_lines(request_lines(head, payload)),
{
    reveal_strlit("----- Start Request");
    reveal_strlit("headers: ");
    reveal_strlit("{");
    reveal_strlit("}");
    reveal_strlit("user-agent");
    reveal_strlit("forwarded");
    reveal_strlit("ip");
    reveal_strlit("authorization");
    reveal_strlit("uri: ");
    reveal_strlit(" ");
    reveal_strlit("?");
    reveal_strlit("version: ");
    reveal_strlit("request payload: ");
    let shown = redacted(head.headers);
    assert forall|i: int| 0 <= i < shown.len() implies single_line((#[trigger] shown[i]).0) by {
        assert(shown[i].0 == head.headers[i].0);
    }
    lemma_joined_single_line(shown);
    lemma_single_line_concat("{"@, joined_fields(shown));
    lemma_single_line_concat("{"@ + joined_fields(shown), "}"@);
    lemma_single_line_concat("headers: "@, headers_text(shown));
    let opening = seq!["----- Start Request"@, "headers: "@ + headers_text(shown)];
    assert(single_lines(opening));
    let agent = optional_line("user-agent"@, first_value(shown, "user-agent"@));
    let forwarded = optional_line("forwarded"@, first_value(shown, "forwarded"@));
    let peer = optional_line("ip"@, head.peer);
    let credentials = optional_line("authorization"@, first_value(shown, "authorization"@));
    lemma_optional_single_line("user-agent"@, first_value(shown, "user-agent"@));
    lemma_optional_single_line("forwarded"@, first_value(shown, "forwarded"@));
    lemma_optional_single_line("ip"@, head.peer);
    lemma_optional_single_line("authorization"@, first_value(shown, "authorization"@));
    let target = target_text(head.path, head.query);
    if let Some(query) = head.query {
        lemma_single_line_concat(head.path, "?"@);
        lemma_single_line_concat(head.path + "?"@, query);
    }
    lemma_single_line_concat("uri: "@, head.method);
    lemma_single_line_concat("uri: "@ + head.method, " "@);
    lemma_single_line_concat("uri: "@ + head.method + " "@, target);
    lemma_single_line_concat("version: "@, head.version);
    lemma_quoted_single_line(payload);
    lemma_single_line_concat("request payload: "@, quoted(payload));
    let closing = seq![
        "uri: "@ + head.method + " "@ + target,
        "version: "@ + head.version,
        "request payload: "@ + quoted(payload),
    ];
    assert(single_lines(closing));
    lemma_single_lines_concat(opening, agent);
    lemma_single_lines_concat(opening + agent, forwarded);
    lemma_single_lines_concat(opening + agent + forwarded, peer);
    lemma_single_lines_concat(opening + agent + forwarded + peer, credentials);
    lemma_single_lines_concat(opening + agent + forwarded + peer + credentials, closing);
}

/// The closing line of a request is a single line.
pub proof fn lemma_closing_single_line(elapsed_ms: nat)
    ensures
        single_line(closing_line(elapsed_ms)),
{
    reveal_strlit("----- END Request in ");
    reveal_strlit(" ms");
    lemma_decimal_single_line(elapsed_ms);
    lemma_single_line_concat("----- END Request in "@, decimal(elapsed_ms));
    lemma_single_line_concat("----- END Request in "@ + decimal(elapsed_ms), " ms"@);
}

/// No forged lines: whatever the payload holds, each of the two lines that
/// are logged for a response is a single line.
pub proof fn lemma_response_lines_are_single(payload: Seq<char>, elapsed_ms: nat)
    ensures
        single_lines(response_lines(payload, elapsed_ms)),
{
    reveal_strlit("response payload: ");
    lemma_quoted_single_line(payload);
    lemma_single_line_concat("response payload: "@, quoted(payload));
    lemma_closing_single_line(elapsed_ms);
}

/// Whatever reason the transport reports, the line that is logged for a
/// failed request is a single line, where the message is.
pub proof fn lemma_failure_lines_are_single(
    elapsed_ms: nat,
    message: Seq<char>,
    reason: Seq<char>,
)
    requires
        single_line(message),
    ensures
        single_lines(failure_lines(elapsed_ms, message, reason)),
{
    reveal_strlit(": ");
    lemma_closing_single_line(elapsed_ms);
    lemma_quoted_single_line(reason);
    let closing = closing_line(elapsed_ms);
    lemma_single_line_concat(closing, ": "@);
    lemma_single_line_concat(closing + ": "@, message);
    lemma_single_line_concat(closing + ": "@ + message, ": "@);
    lemma_single_line_concat(closing + ": "@ + message + ": "@, quoted(reason));
}

} // verus!
