//! Requests over HTTP that put something.

use vstd::prelude::*;

verus! {

/// The headers of `http`, known through [`header_contents`] only.
#[verifier::external_type_specification]
#[verifier::external_body]
#[verifier::reject_recursive_types(T)]
pub struct ExHeaderMap<T>(http::HeaderMap<T>);

/// The value of a header in `http`, known through [`header_text`] only.
#[verifier::external_type_specification]
#[verifier::external_body]
pub struct ExHeaderValue(http::HeaderValue);

/// The headers that `headers` holds: under each name its first value.
pub uninterp spec fn header_contents(headers: http::HeaderMap) -> Map<Seq<char>, Seq<char>>;

/// The characters that the bytes of the value of a header encode in UTF-8.
pub uninterp spec fn header_text(value: http::HeaderValue) -> Seq<char>;

/// Whether `text` can be the value of a header: no ASCII control character but the tab.
pub open spec fn is_header_text(text: Seq<char>) -> bool {
    forall|i: int|
        0 <= i < text.len() ==> (#[trigger] text[i] >= ' ' && text[i] != '\u{7f}') || text[i]
            == '\t'
}

/// A name of a header in lower-case letters and hyphens, of no great length.
pub open spec fn is_plain_name(name: Seq<char>) -> bool {
    &&& 0 < name.len() <= 64
    &&& forall|i: int|
        0 <= i < name.len() ==> 'a' <= #[trigger] name[i] <= 'z' || name[i] == '-'
}

/// `http::HeaderMap::new`, which makes a map without headers.
#[verifier::external_body]
fn no_headers() -> (headers: http::HeaderMap)
    ensures
        header_contents(headers).dom() == Set::<Seq<char>>::empty(),
{
    http::HeaderMap::new()
}

/// `http::HeaderValue::from_str`, which keeps the bytes and refuses those below 32 other than the
/// tab, and 127; every byte of a character outside ASCII is above them. Then the `Display` form of
/// its error, which is always the same.
#[verifier::external_body]
fn header_value(text: &str) -> (value: Result<http::HeaderValue, String>)
    ensures
        match value {
            Ok(made) => is_header_text(text@) && header_text(made) == text@,
            Err(reason) => !is_header_text(text@) && reason@ == "failed to parse header value"@,
        },
{
    http::HeaderValue::from_str(text).map_err(|e| e.to_string())
}

/// `http::HeaderMap::insert` with a static name, which puts the value in the place of those under
/// that name. It panics on what is no name of a header, and on a map that has grown too large.
#[verifier::external_body]
fn insert_header(headers: &mut http::HeaderMap, name: &'static str, value: http::HeaderValue)
    requires
        is_plain_name(name@),
        header_contents(*old(headers)).len() < 100,
    ensures
        header_contents(*final(headers)) == header_contents(*old(headers)).insert(
            name@,
            header_text(value),
        ),
{
    headers.insert(name, value);
}

/// A request over HTTP that puts something.
pub struct PutRequest {
    pub endpoint: String,
    pub headers: http::HeaderMap,
    pub body: Vec<u8>,
}

/// The model of a [`PutRequest`].
#[verifier::ext_equal]
pub struct PutRequestView {
    pub endpoint: Seq<char>,
    pub headers: Map<Seq<char>, Seq<char>>,
    pub body: Seq<u8>,
}

impl View for PutRequest {
    type V = PutRequestView;

    open spec fn view(&self) -> PutRequestView {
        PutRequestView {
            endpoint: self.endpoint@,
            headers: header_contents(self.headers),
            body: self.body@,
        }
    }
}

/// The request that puts JSON.
pub open spec fn json_request(endpoint: Seq<char>, body: Seq<u8>) -> PutRequestView {
    PutRequestView { endpoint, headers: map!["content-type"@ => "application/json"@], body }
}

/// The request that puts JSON. Its header is valid, so there is always one.
pub fn put_json(endpoint: String, body: Vec<u8>) -> (request: Result<PutRequest, String>)
    ensures
        request matches Ok(put) && put@ == json_request(endpoint@, body@),
{
    proof {
        reveal_strlit("content-type");
        reveal_strlit("application/json");
    }
    let mut headers = no_headers();
    match header_value("application/json") {
        Ok(value) => insert_header(&mut headers, "content-type", value),
        Err(reason) => return Err(reason),
    }
    Ok(PutRequest { endpoint, headers, body })
}

/// The request with which a device announces itself over a connection to Spotify.
pub open spec fn announcement_request(
    device_id: Seq<char>,
    connection_id: Seq<char>,
    body: Seq<u8>,
) -> PutRequestView {
    PutRequestView {
        endpoint: "/connect-state/v1/devices/"@ + device_id,
        headers: map![
            "x-spotify-connection-id"@ => connection_id,
            "content-type"@ => "application/x-protobuf"@,
        ],
        body,
    }
}

/// The headers with which a device announces itself over a connection to Spotify, or the reason
/// why the connection id cannot be in a header.
pub fn announcement_headers(connection_id: &str) -> (headers: Result<http::HeaderMap, String>)
    ensures
        match headers {
            Ok(made) => is_header_text(connection_id@) && header_contents(made)
                == announcement_request(Seq::empty(), connection_id@, Seq::empty()).headers,
            Err(reason) => !is_header_text(connection_id@) && reason@
                == "failed to parse header value"@,
        },
{
    proof {
        reveal_strlit("x-spotify-connection-id");
        reveal_strlit("content-type");
        reveal_strlit("application/x-protobuf");
    }
    let mut headers = no_headers();
    match header_value(connection_id) {
        Ok(value) => insert_header(&mut headers, "x-spotify-connection-id", value),
        Err(reason) => return Err(reason),
    }
    match header_value("application/x-protobuf") {
        Ok(value) => insert_header(&mut headers, "content-type", value),
        Err(reason) => return Err(reason),
    }
    Ok(headers)
}

} // verus!
