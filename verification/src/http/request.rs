//! Proxy requests require additional information attached to them such as
//! the address of the client, which the request alone does not tell. This
//! module implements the `Forwarded` header of RFC 7239, through which a
//! proxy discloses that information to the upstream server.
//!
//! # RFC 7239
//!
//! Document: <https://www.rfc-editor.org/rfc/rfc7239>
//!
//! The HTTP `Forwarded` header allows proxies to disclose information lost
//! in the proxying process, such as the IP of the original client:
//!
//! ```text
//! Forwarded: for={};by={};host={};proto={}
//! ```
//!
//! - `for`: Identifies the client that initiated the request.
//! - `by`: Identifies the interface where the request came in to the proxy
//!   server.
//! - `host`: Original value of the `Host` HTTP header, as received by the
//!   proxy.
//! - `proto`: Protocol used to make the request.
//!
//! All parameters are optional. If the request passes through multiple
//! proxies, the header contains a list of such groups separated by commas,
//! in the order in which the proxies were passed:
//!
//! ```text
//! Forwarded: for=192.0.2.43, for=198.51.100.17;by=203.0.113.60;proto=http;host=example.com
//! ```
//!
//! There is nothing that can be trusted in this header, as every proxy in
//! the chain can manipulate the value. Even the original client can set any
//! value to the `Forwarded` header.

use vstd::prelude::*;
use vstd::string::{StrSliceExecFns, StringSliceAdditionalSpecFns};
use vstd::utf8::valid_utf8;

verus! {

/// The bytes of a text that is written in ASCII.
pub open spec fn ascii(text: Seq<char>) -> Seq<u8> {
    Seq::new(text.len(), |i: int| text[i] as u8)
}

/// What one proxy has to say in the `Forwarded` header: who sent the
/// request, where the proxy received it and which host was asked for. A
/// request that names no host is taken to ask for the proxy itself.
pub open spec fn forwarded_group(client: Seq<u8>, server: Seq<u8>, host: Option<Seq<u8>>) -> Seq<
    u8,
> {
    ascii("for="@) + client + ascii(";by="@) + server + ascii(";host="@) + match host {
        Some(host) => host,
        None => server,
    }
}

/// `values`, each followed by a comma and a space.
pub open spec fn each_with_comma(values: Seq<Seq<u8>>) -> Seq<u8>
    decreases values.len(),
{
    if values.len() == 0 {
        Seq::empty()
    } else {
        each_with_comma(values.drop_last()) + values.last() + ascii(", "@)
    }
}

/// The value of the `Forwarded` header after a proxy has added its `group`
/// to what the header said before: every earlier value, in order, then the
/// group, separated by commas.
pub open spec fn forwarded_value(previous: Seq<Seq<u8>>, group: Seq<u8>) -> Seq<u8> {
    each_with_comma(previous) + group
}

/// `groups`, separated by commas.
pub open spec fn comma_separated(groups: Seq<Seq<u8>>) -> Seq<u8>
    decreases groups.len(),
{
    if groups.len() == 0 {
        Seq::empty()
    } else if groups.len() == 1 {
        groups[0]
    } else {
        comma_separated(groups.drop_last()) + ascii(", "@) + groups.last()
    }
}

/// A request without a `Forwarded` header leaves with the group of the
/// proxy alone, and one that has a single value leaves with that value, a
/// comma and the group of the proxy.
pub proof fn lemma_forwarded_extends(value: Seq<u8>, group: Seq<u8>)
    ensures
        forwarded_value(Seq::empty(), group) == group,
        forwarded_value(seq![value], group) == value + ascii(", "@) + group,
{
    let one = seq![value];
    assert(one.drop_last() =~= Seq::<Seq<u8>>::empty());
    assert(each_with_comma(one.drop_last()) =~= Seq::<u8>::empty());
    assert(one.last() == value);
    assert(each_with_comma(one) =~= value + ascii(", "@));
    assert(forwarded_value(Seq::empty(), group) =~= group);
}

/// Values that are put together with a new group are separated by commas.
pub proof fn lemma_forwarded_value_is_comma_separated(previous: Seq<Seq<u8>>, group: Seq<u8>)
    ensures
        forwarded_value(previous, group) == comma_separated(previous.push(group)),
    decreases previous.len(),
{
    let all = previous.push(group);
    assert(all.drop_last() =~= previous);
    if previous.len() > 0 {
        let earlier = previous.drop_last();
        lemma_forwarded_value_is_comma_separated(earlier, previous.last());
        assert(earlier.push(previous.last()) =~= previous);
        assert(forwarded_value(previous, group) =~= comma_separated(previous) + ascii(", "@)
            + group);
    } else {
        assert(forwarded_value(previous, group) =~= group);
    }
}

/// One proxy on the way of a request: the address of the sender as the
/// proxy saw it, the address on which the proxy received the request and
/// the `Host` header of the request, if it had one.
pub struct Hop {
    pub client: Seq<u8>,
    pub server: Seq<u8>,
    pub host: Option<Seq<u8>>,
}

impl Hop {
    /// What the proxy of this hop adds to the `Forwarded` header.
    pub open spec fn group(self) -> Seq<u8> {
        forwarded_group(self.client, self.server, self.host)
    }
}

/// The values of the `Forwarded` header of a request that has passed
/// `hops`, in this order, and had no such header to begin with.
pub open spec fn forwarded_through(hops: Seq<Hop>) -> Seq<Seq<u8>>
    decreases hops.len(),
{
    if hops.len() == 0 {
        Seq::empty()
    } else {
        seq![forwarded_value(forwarded_through(hops.drop_last()), hops.last().group())]
    }
}

/// The groups of `hops`, in the same order.
pub open spec fn groups_of(hops: Seq<Hop>) -> Seq<Seq<u8>> {
    Seq::new(hops.len(), |i: int| hops[i].group())
}

/// A request that has passed through a chain of proxies carries one
/// `Forwarded` header with one group for each of them, separated by commas,
/// in the order in which it passed them.
pub proof fn lemma_forwarded_chain(hops: Seq<Hop>)
    requires
        hops.len() > 0,
    ensures
        groups_of(hops).len() == hops.len(),
        forwarded_through(hops) == seq![comma_separated(groups_of(hops))],
    decreases hops.len(),
{
    let groups = groups_of(hops);
    let earlier = forwarded_through(hops.drop_last());
    lemma_forwarded_value_is_comma_separated(earlier, hops.last().group());
    if hops.len() == 1 {
        assert(earlier =~= Seq::<Seq<u8>>::empty());
        assert(earlier.push(hops.last().group()) =~= groups);
    } else {
        lemma_forwarded_chain(hops.drop_last());
        assert(groups.drop_last() =~= groups_of(hops.drop_last()));
        assert(groups.last() == hops.last().group());
        let before = comma_separated(groups.drop_last());
        let both = earlier.push(hops.last().group());
        assert(earlier =~= seq![before]);
        assert(both.drop_last() =~= seq![before]);
        assert(comma_separated(seq![before]) == before);
        assert(comma_separated(both) == before + ascii(", "@) + hops.last().group());
        assert(comma_separated(groups) == before + ascii(", "@) + groups.last());
    }
}

/// A byte that a header value may hold: any byte but the control characters
/// of ASCII, of which only the tab is allowed.
pub open spec fn is_header_byte(byte: u8) -> bool {
    byte == 9 || (byte >= 32 && byte != 127)
}

/// Bytes that a header value may hold.
pub open spec fn is_header_bytes(value: Seq<u8>) -> bool {
    forall|i: int| 0 <= i < value.len() ==> is_header_byte(#[trigger] value[i])
}

/// A character of a text in visible ASCII: a visible character, a space or
/// a tab.
pub open spec fn is_text_char(c: char) -> bool {
    c == '\t' || (' ' <= c && c <= '~')
}

/// Text in visible ASCII, which a header value can hold as it is written.
pub open spec fn is_header_text(value: Seq<char>) -> bool {
    forall|i: int| 0 <= i < value.len() ==> is_text_char(#[trigger] value[i])
}

/// A character of a header name written in lower case letters, digits and
/// hyphens.
pub open spec fn is_name_char(c: char) -> bool {
    ('a' <= c && c <= 'z') || ('0' <= c && c <= '9') || c == '-'
}

/// A header name of up to 64 lower case letters, digits and hyphens.
pub open spec fn is_header_name(name: Seq<char>) -> bool {
    &&& 0 < name.len() <= 64
    &&& forall|i: int| 0 <= i < name.len() ==> is_name_char(#[trigger] name[i])
}

/// Header bytes put together are header bytes.
pub proof fn lemma_header_bytes_concat(left: Seq<u8>, right: Seq<u8>)
    requires
        is_header_bytes(left),
        is_header_bytes(right),
    ensures
        is_header_bytes(left + right),
{
}

/// Text in visible ASCII is made of header bytes.
pub proof fn lemma_text_is_header_bytes(text: Seq<char>)
    requires
        is_header_text(text),
    ensures
        is_header_bytes(ascii(text)),
        ascii(text).len() == text.len(),
{
    assert forall|i: int| 0 <= i < ascii(text).len() implies is_header_byte(
        #[trigger] ascii(text)[i],
    ) by {
        assert(is_text_char(text[i]));
    }
}

/// Tells whether `value` is text in visible ASCII.
pub fn is_text(value: &str) -> (yes: bool)
    ensures
        yes == is_header_text(value@),
{
    let len = value.unicode_len();
    let mut i: usize = 0;
    while i < len
        invariant
            len == value@.len(),
            i <= len,
            forall|j: int| 0 <= j < i ==> is_text_char(#[trigger] value@[j]),
        decreases len - i,
    {
        let c = value.get_char(i);
        if !(c == '\t' || (' ' <= c && c <= '~')) {
            return false;
        }
        i += 1;
    }
    true
}

/// Appends `more` to `bytes`.
fn append(bytes: &mut Vec<u8>, more: &[u8])
    ensures
        final(bytes)@ == old(bytes)@ + more@,
{
    let ghost before = bytes@;
    let mut i: usize = 0;
    while i < more.len()
        invariant
            i <= more@.len(),
            bytes@ == before + more@.take(i as int),
        decreases more@.len() - i,
    {
        bytes.push(more[i]);
        assert(bytes@ =~= before + more@.take(i + 1));
        i += 1;
    }
    assert(more@.take(i as int) =~= more@);
}

/// Appends `text`, which is written in ASCII, to `bytes`.
fn append_text(bytes: &mut Vec<u8>, text: &str)
    requires
        is_header_text(text@),
    ensures
        final(bytes)@ == old(bytes)@ + ascii(text@),
{
    proof {
        assert(vstd::string::is_ascii(text)) by {
            assert forall|i: int| 0 <= i < text@.len() implies '\0' <= #[trigger] text@[i]
                <= '\u{7f}' by {
                assert(is_text_char(text@[i]));
            }
        }
        vstd::string::is_ascii_spec_bytes(text);
        assert(text.spec_bytes() =~= ascii(text@));
    }
    append(bytes, text.as_bytes());
}

/// The values of a header as sequences.
pub open spec fn values_of(values: Seq<Vec<u8>>) -> Seq<Seq<u8>> {
    Seq::new(values.len(), |i: int| values[i]@)
}

/// Composes the value of the `Forwarded` header for a request that `client`
/// sent and that was received on `server`. `previous` are the values that
/// the request has for that header already, and `host` is the `Host` header
/// of the request, if it has one that counts. The values that were there
/// are kept, in their order, and the group of this proxy comes after them.
pub fn forwarded(
    previous: &Vec<Vec<u8>>,
    client: &str,
    server: &str,
    host: Option<&Vec<u8>>,
) -> (value: Vec<u8>)
    requires
        is_header_text(client@),
        is_header_text(server@),
    ensures
        value@ == forwarded_value(
            values_of(previous@),
            forwarded_group(
                ascii(client@),
                ascii(server@),
                match host {
                    Some(host) => Some(host@),
                    None => None,
                },
            ),
        ),
{
    let mut value: Vec<u8> = Vec::new();
    let mut i: usize = 0;
    proof {
        reveal_strlit(", ");
        reveal_strlit("for=");
        reveal_strlit(";by=");
        reveal_strlit(";host=");
    }
    while i < previous.len()
        invariant
            i <= previous@.len(),
            is_header_text(", "@),
            value@ == each_with_comma(values_of(previous@).take(i as int)),
        decreases previous@.len() - i,
    {
        proof {
            let taken = values_of(previous@).take(i + 1);
            assert(taken.drop_last() =~= values_of(previous@).take(i as int));
            assert(taken.last() == previous@[i as int]@);
        }
        append(&mut value, previous[i].as_slice());
        append_text(&mut value, ", ");
        i += 1;
    }
    assert(values_of(previous@).take(i as int) =~= values_of(previous@));
    let ghost led = value@;
    append_text(&mut value, "for=");
    append_text(&mut value, client);
    append_text(&mut value, ";by=");
    append_text(&mut value, server);
    append_text(&mut value, ";host=");
    match host {
        Some(host) => append(&mut value, host.as_slice()),
        None => append_text(&mut value, server),
    }
    assert(value@ =~= led + forwarded_group(
        ascii(client@),
        ascii(server@),
        match host {
            Some(host) => Some(host@),
            None => None,
        },
    ));
    value
}

/// The value of the `Forwarded` header is made of header bytes if its parts
/// are.
pub proof fn lemma_forwarded_is_header_bytes(
    previous: Seq<Seq<u8>>,
    client: Seq<char>,
    server: Seq<char>,
    host: Option<Seq<u8>>,
)
    requires
        forall|i: int| 0 <= i < previous.len() ==> is_header_bytes(#[trigger] previous[i]),
        is_header_text(client),
        is_header_text(server),
        host matches Some(host) ==> is_header_bytes(host),
    ensures
        is_header_bytes(
            forwarded_value(previous, forwarded_group(ascii(client), ascii(server), host)),
        ),
    decreases previous.len(),
{
    reveal_strlit(", ");
    reveal_strlit("for=");
    reveal_strlit(";by=");
    reveal_strlit(";host=");
    lemma_text_is_header_bytes(", "@);
    lemma_text_is_header_bytes("for="@);
    lemma_text_is_header_bytes(";by="@);
    lemma_text_is_header_bytes(";host="@);
    lemma_text_is_header_bytes(client);
    lemma_text_is_header_bytes(server);
    lemma_commas_are_header_bytes(previous);
}

/// Header values that are each followed by a comma are header bytes.
proof fn lemma_commas_are_header_bytes(values: Seq<Seq<u8>>)
    requires
        forall|i: int| 0 <= i < values.len() ==> is_header_bytes(#[trigger] values[i]),
    ensures
        is_header_bytes(each_with_comma(values)),
    decreases values.len(),
{
    reveal_strlit(", ");
    lemma_text_is_header_bytes(", "@);
    if values.len() > 0 {
        lemma_commas_are_header_bytes(values.drop_last());
        assert(is_header_bytes(values.last()));
    }
}

} // verus!

verus! {

/// A request as `http` holds it.
#[verifier::external_type_specification]
#[verifier::external_body]
#[verifier::reject_recursive_types(T)]
pub struct ExRequest<T>(http::Request<T>);

/// The head of a request as `http` holds it: method, URI, version, headers
/// and extensions.
#[verifier::external_type_specification]
#[verifier::external_body]
pub struct ExParts(http::request::Parts);

/// The headers of a request or of a response as `http` holds them.
#[verifier::external_type_specification]
#[verifier::external_body]
#[verifier::reject_recursive_types(T)]
pub struct ExHeaderMap<T>(http::HeaderMap<T>);

/// The value of a header as `http` holds it.
#[verifier::external_type_specification]
#[verifier::external_body]
pub struct ExHeaderValue(http::HeaderValue);

/// The headers: the name of each header, in lower case, with all the values
/// of that header, in their order.
pub uninterp spec fn header_lines(headers: http::HeaderMap) -> Map<Seq<char>, Seq<Seq<u8>>>;

/// The number of different header names.
pub uninterp spec fn header_count(headers: http::HeaderMap) -> nat;

/// The path and query of the URI of a request head, in writing, if the URI
/// has them.
pub uninterp spec fn request_target(head: http::request::Parts) -> Option<Seq<char>>;

/// The path of the URI of a request head.
pub uninterp spec fn request_path(head: http::request::Parts) -> Seq<char>;

/// Headers with at most this many different names are sure to take one
/// more. A header map refuses a header only when its table of positions
/// would have to grow beyond 32768 slots. The table grows when three
/// quarters of its slots are in use or, after long runs of collisions, when
/// a fifth of them are; below a fifth of 32768 it never has to.
pub const NAMES_WITH_ROOM: usize = 6553;

/// The values of the header called `name`, none if there is no such header.
pub open spec fn lines_of(lines: Map<Seq<char>, Seq<Seq<u8>>>, name: Seq<char>) -> Seq<Seq<u8>> {
    if lines.contains_key(name) {
        lines[name]
    } else {
        Seq::empty()
    }
}

/// `Request::into_parts` of `http`: takes a request apart into its head, the
/// headers out of the head, and its body.
#[verifier::external_body]
fn into_parts<T>(request: http::Request<T>) -> (parts: (
    http::request::Parts,
    http::HeaderMap,
    T,
)) {
    let (mut head, body) = request.into_parts();
    let headers = std::mem::take(&mut head.headers);
    (head, headers, body)
}

/// `Request::from_parts` of `http`: makes a request of a head, the headers
/// that belong into the head, and a body.
#[verifier::external_body]
fn from_parts<T>(head: http::request::Parts, headers: http::HeaderMap, body: T) -> (request:
    http::Request<T>) {
    let mut head = head;
    head.headers = headers;
    http::Request::from_parts(head, body)
}

/// `HeaderMap::get_all` of `http`, with `HeaderValue::as_bytes` for each
/// value: all the values of the header called `name`, in their order. No
/// header value holds a control character other than the tab.
#[verifier::external_body]
fn header_values(headers: &http::HeaderMap, name: &str) -> (values: Vec<Vec<u8>>)
    requires
        is_header_name(name@),
    ensures
        values_of(values@) == lines_of(header_lines(*headers), name@),
        forall|i: int| 0 <= i < values@.len() ==> is_header_bytes(#[trigger] values@[i]@),
{
    headers.get_all(name).iter().map(|value| value.as_bytes().to_vec()).collect()
}

/// `HeaderMap::contains_key` of `http`: whether there is a header called
/// `name`.
#[verifier::external_body]
fn has_header(headers: &http::HeaderMap, name: &str) -> (yes: bool)
    requires
        is_header_name(name@),
    ensures
        yes == header_lines(*headers).contains_key(name@),
{
    headers.contains_key(name)
}

/// `HeaderMap::keys_len` of `http`: the number of different header names.
#[verifier::external_body]
pub(crate) fn name_count(headers: &http::HeaderMap) -> (count: usize)
    ensures
        count == header_count(*headers),
{
    headers.keys_len()
}

/// `std::str::from_utf8` of the standard library: whether `bytes` are valid
/// UTF-8.
#[verifier::external_body]
fn is_utf8(bytes: &[u8]) -> (yes: bool)
    ensures
        yes == valid_utf8(bytes@),
{
    std::str::from_utf8(bytes).is_ok()
}

/// `Uri::path_and_query` of `http`, written out: the path and query of the
/// URI of the request, if the URI has them.
#[verifier::external_body]
fn target_text(head: &http::request::Parts) -> (target: Option<String>)
    ensures
        crate::config::optional_text(target) == request_target(*head),
{
    head.uri.path_and_query().map(|target| target.to_string())
}

/// `Uri::path` of `http`: the path of the URI of the request.
#[verifier::external_body]
fn path_text(head: &http::request::Parts) -> (path: String)
    ensures
        path@ == request_path(*head),
{
    String::from(head.uri.path())
}

/// `HeaderValue::from_bytes` of `http`, followed by `HeaderMap::try_insert`:
/// makes `value` the one and only value of the header called `name` and
/// leaves the other headers alone. Nothing is stored, and `false` returned,
/// if the headers are too many to add one, which does not happen as long as
/// there are no more than [`NAMES_WITH_ROOM`] different names. A name that
/// was not there before makes one name more.
#[verifier::external_body]
pub(crate) fn set_header_value(
    headers: &mut http::HeaderMap,
    name: &'static str,
    value: &[u8],
) -> (stored: bool)
    requires
        is_header_name(name@),
        is_header_bytes(value@),
    ensures
        header_lines(*final(headers)) == if stored {
            header_lines(*old(headers)).insert(name@, seq![value@])
        } else {
            header_lines(*old(headers))
        },
        header_count(*final(headers)) == if stored && !header_lines(*old(headers)).contains_key(
            name@,
        ) {
            header_count(*old(headers)) + 1
        } else {
            header_count(*old(headers))
        },
        header_count(*old(headers)) <= NAMES_WITH_ROOM ==> stored,
{
    match http::HeaderValue::from_bytes(value) {
        Ok(value) => headers.try_insert(name, value).is_ok(),
        Err(_) => false,
    }
}

/// The names `host`, `forwarded` and `upgrade` are header names.
proof fn lemma_names()
    ensures
        is_header_name("host"@),
        is_header_name("forwarded"@),
        is_header_name("upgrade"@),
{
    reveal_strlit("host");
    reveal_strlit("forwarded");
    reveal_strlit("upgrade");
}

/// The host that a request with the headers `lines` asks for: the first
/// value of its `Host` header, if it has one and the value is valid UTF-8.
pub open spec fn host_of(lines: Map<Seq<char>, Seq<Seq<u8>>>) -> Option<Seq<u8>> {
    let hosts = lines_of(lines, "host"@);
    if hosts.len() > 0 && valid_utf8(hosts[0]) {
        Some(hosts[0])
    } else {
        None
    }
}

/// The `Forwarded` header that a request with the headers `before` leaves
/// the proxy with.
pub open spec fn forwarded_for(before: Map<Seq<char>, Seq<Seq<u8>>>, client: Seq<u8>, server: Seq<
    u8,
>) -> Seq<u8> {
    forwarded_value(
        lines_of(before, "forwarded"@),
        forwarded_group(client, server, host_of(before)),
    )
}

/// The headers after the proxy has set the `Forwarded` header: all as
/// before, but for that one header, which has a single value.
pub open spec fn forwarded_lines(
    before: Map<Seq<char>, Seq<Seq<u8>>>,
    client: Seq<u8>,
    server: Seq<u8>,
) -> Map<Seq<char>, Seq<Seq<u8>>> {
    before.insert("forwarded"@, seq![forwarded_for(before, client, server)])
}

/// Rewrites the headers of a request that `client` sent and that was
/// received on `server`, so that it can be sent on: sets the `Forwarded`
/// header. The `host` of the new group is the `Host` header of the request if
/// it has one that is valid UTF-8, else `server`. Every value that the
/// `Forwarded` header had before is kept in front of the new group. The
/// other headers stay as they are. The header is stored whenever there are
/// no more than [`NAMES_WITH_ROOM`] different header names. Returns `false`,
/// and changes nothing, if there is no room for one more header.
pub fn forward_headers(headers: &mut http::HeaderMap, client: &str, server: &str) -> (stored: bool)
    requires
        is_header_text(client@),
        is_header_text(server@),
    ensures
        header_count(*old(headers)) <= NAMES_WITH_ROOM ==> stored,
        header_lines(*final(headers)) == if stored {
            forwarded_lines(header_lines(*old(headers)), ascii(client@), ascii(server@))
        } else {
            header_lines(*old(headers))
        },
        header_count(*final(headers)) == if stored && !header_lines(*old(headers)).contains_key(
            "forwarded"@,
        ) {
            header_count(*old(headers)) + 1
        } else {
            header_count(*old(headers))
        },
{
    proof {
        lemma_names();
    }
    let hosts = header_values(headers, "host");
    let previous = header_values(headers, "forwarded");
    let host = if hosts.len() > 0 && is_utf8(hosts[0].as_slice()) {
        Some(&hosts[0])
    } else {
        None
    };
    let value = forwarded(&previous, client, server, host);
    proof {
        let lines = header_lines(*headers);
        assert(values_of(hosts@).len() == hosts@.len());
        if hosts@.len() > 0 {
            assert(values_of(hosts@)[0] == hosts@[0]@);
        }
        assert(host_of(lines) == match host {
            Some(host) => Some(host@),
            None => None,
        });
        assert forall|i: int| 0 <= i < values_of(previous@).len() implies is_header_bytes(
            #[trigger] values_of(previous@)[i],
        ) by {
            assert(is_header_bytes(previous@[i]@));
        }
        lemma_forwarded_is_header_bytes(values_of(previous@), client@, server@, host_of(lines));
    }
    set_header_value(headers, "forwarded", value.as_slice())
}

/// A socket address in writing, as it appears in the `Forwarded` header.
#[derive(Debug)]
pub struct AddressText {
    text: String,
}

impl View for AddressText {
    type V = Seq<char>;

    closed spec fn view(&self) -> Seq<char> {
        self.text@
    }
}

impl AddressText {
    /// An address is written in visible ASCII.
    #[verifier::type_invariant]
    spec fn is_text(&self) -> bool {
        is_header_text(self.text@)
    }

    /// Takes `text` for an address if it is written in visible ASCII.
    pub fn new(text: String) -> (address: Option<Self>)
        ensures
            match address {
                Some(address) => address@ == text@ && is_header_text(text@),
                None => !is_header_text(text@),
            },
    {
        if is_text(text.as_str()) {
            Some(Self { text })
        } else {
            None
        }
    }

    /// The address in writing.
    pub fn as_str(&self) -> (text: &str)
        ensures
            text@ == self@,
            is_header_text(text@),
    {
        proof {
            use_type_invariant(self);
        }
        self.text.as_str()
    }
}

/// Request received by this proxy from a client.
pub struct ProxyRequest<T> {
    /// Head of the original client request, without its headers.
    head: http::request::Parts,
    /// Headers of the original client request.
    headers: http::HeaderMap,
    /// Body of the original client request.
    body: T,
    /// Client socket.
    client_addr: AddressText,
    /// Local socket currently handling this request.
    server_addr: AddressText,
}

impl<T> ProxyRequest<T> {
    /// The head of the request but for its headers: method, URI, version
    /// and extensions.
    pub closed spec fn head(&self) -> http::request::Parts {
        self.head
    }

    /// The body of the request.
    pub closed spec fn body(&self) -> T {
        self.body
    }

    /// The headers of the request: each name with all its values.
    pub closed spec fn header_lines(&self) -> Map<Seq<char>, Seq<Seq<u8>>> {
        header_lines(self.headers)
    }

    /// The number of different header names of the request.
    pub closed spec fn header_count(&self) -> nat {
        header_count(self.headers)
    }

    /// The path and query of the URI of the request, in writing, if the URI
    /// has them.
    pub closed spec fn spec_path_and_query(&self) -> Option<Seq<char>> {
        request_target(self.head)
    }

    /// The path of the URI of the request.
    pub closed spec fn spec_path(&self) -> Seq<char> {
        request_path(self.head)
    }

    /// Client socket, in writing.
    pub closed spec fn client(&self) -> Seq<char> {
        self.client_addr@
    }

    /// Local socket currently handling this request, in writing.
    pub closed spec fn server(&self) -> Seq<char> {
        self.server_addr@
    }

    /// Creates a new [`ProxyRequest`] for a request that came from
    /// `client_addr` and was received on `server_addr`.
    pub fn new(
        request: http::Request<T>,
        client_addr: AddressText,
        server_addr: AddressText,
    ) -> (proxied: Self)
        ensures
            proxied.client() == client_addr@,
            proxied.server() == server_addr@,
    {
        let (head, headers, body) = into_parts(request);
        Self { head, headers, body, client_addr, server_addr }
    }

    /// The headers of the request.
    pub fn headers(&self) -> (headers: &http::HeaderMap)
        ensures
            header_lines(*headers) == self.header_lines(),
            header_count(*headers) == self.header_count(),
    {
        &self.headers
    }

    /// The path and query of the URI of the request, in writing, if the URI
    /// has them.
    pub fn path_and_query(&self) -> (target: Option<String>)
        ensures
            crate::config::optional_text(target) == self.spec_path_and_query(),
    {
        target_text(&self.head)
    }

    /// The path of the URI of the request.
    pub fn path(&self) -> (path: String)
        ensures
            path@ == self.spec_path(),
    {
        path_text(&self.head)
    }

    /// Tells whether the request asks for an upgrade of the connection: it
    /// does if it bears an `Upgrade` header.
    pub fn wants_upgrade(&self) -> (yes: bool)
        ensures
            yes == self.header_lines().contains_key("upgrade"@),
    {
        proof {
            lemma_names();
        }
        has_header(&self.headers, "upgrade")
    }

    /// Tells whether the request has room for the `Forwarded` header for
    /// sure: whether it has no more than [`NAMES_WITH_ROOM`] different
    /// header names.
    pub fn has_room(&self) -> (yes: bool)
        ensures
            yes == (self.header_count() <= NAMES_WITH_ROOM),
    {
        name_count(&self.headers) <= NAMES_WITH_ROOM
    }

    /// Sets the `Forwarded` header of the request, see [`forward_headers`].
    /// The header is stored whenever the request has no more than
    /// [`NAMES_WITH_ROOM`] different header names. Nothing else changes:
    /// method, URI, version, extensions, body and all the other headers stay
    /// as they are.
    pub fn forward(&mut self) -> (stored: bool)
        ensures
            old(self).header_count() <= NAMES_WITH_ROOM ==> stored,
            final(self).header_lines() == if stored {
                forwarded_lines(
                    old(self).header_lines(),
                    ascii(old(self).client()),
                    ascii(old(self).server()),
                )
            } else {
                old(self).header_lines()
            },
            final(self).header_count() == if stored && !old(self).header_lines().contains_key(
                "forwarded"@,
            ) {
                old(self).header_count() + 1
            } else {
                old(self).header_count()
            },
            final(self).head() == old(self).head(),
            final(self).body() == old(self).body(),
            final(self).client() == old(self).client(),
            final(self).server() == old(self).server(),
    {
        forward_headers(&mut self.headers, self.client_addr.as_str(), self.server_addr.as_str())
    }

    /// Consumes the [`ProxyRequest`] returning a request that contains a
    /// valid HTTP `Forwarded` header, ready to be sent to the upstream
    /// server. This is an implementation of RFC 7239. The request must have
    /// room for the header, see [`ProxyRequest::has_room`].
    pub fn into_forwarded(self) -> (request: http::Request<T>)
        requires
            self.header_count() <= NAMES_WITH_ROOM,
    {
        let mut proxied = self;
        let stored = proxied.forward();
        assert(stored);
        from_parts(proxied.head, proxied.headers, proxied.body)
    }

    /// Does what [`ProxyRequest::into_forwarded`] does if the request has
    /// room for the `Forwarded` header, and gives the request back as it is
    /// if not.
    pub fn try_into_forwarded(self) -> (forwarded: Result<http::Request<T>, Self>)
        ensures
            forwarded is Ok <==> self.header_count() <= NAMES_WITH_ROOM,
            forwarded matches Err(unchanged) ==> unchanged == self,
    {
        if self.has_room() {
            Ok(self.into_forwarded())
        } else {
            Err(self)
        }
    }
}

} // verus!
