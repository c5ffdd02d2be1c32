//! The fields of the line logged for each proxied request.

use vstd::prelude::*;

verus! {

/// What is logged of a request: its method, the client's address, the host
/// asked for, the URL, the number of body bytes answered and the HTTP version.
pub struct RequestLogFields {
    pub method: String,
    pub client_ip: String,
    pub http_host: String,
    pub url: String,
    pub response_bytes: usize,
    pub http_version: String,
}

/// `-`, logged in place of what is not known.
pub open spec fn unknown() -> Seq<char> {
    "-"@
}

/// The text logged for what may not be known.
pub open spec fn known_or_dash(text: Option<String>) -> Seq<char> {
    match text {
        Some(t) => t@,
        None => unknown(),
    }
}

fn or_dash(text: Option<String>) -> (logged: String)
    ensures
        logged@ == known_or_dash(text),
{
    match text {
        Some(t) => t,
        None => "-".to_string(),
    }
}

/// The log fields of a request, with `-` for a client address or a host that
/// is not known.
pub fn request_log_fields(
    method: String,
    client_ip: Option<String>,
    http_host: Option<String>,
    url: String,
    response_bytes: usize,
    http_version: String,
) -> (fields: RequestLogFields)
    ensures
        fields.method@ == method@,
        fields.client_ip@ == known_or_dash(client_ip),
        fields.http_host@ == known_or_dash(http_host),
        fields.url@ == url@,
        fields.response_bytes == response_bytes,
        fields.http_version@ == http_version@,
{
    RequestLogFields {
        method,
        client_ip: or_dash(client_ip),
        http_host: or_dash(http_host),
        url,
        response_bytes,
        http_version,
    }
}

impl RequestLogFields {
    /// The same fields with the number of body bytes answered set to `n`.
    pub fn with_response_bytes(self, n: usize) -> (fields: RequestLogFields)
        ensures
            fields.response_bytes == n,
            fields.method@ == self.method@,
            fields.client_ip@ == self.client_ip@,
            fields.http_host@ == self.http_host@,
            fields.url@ == self.url@,
            fields.http_version@ == self.http_version@,
    {
        RequestLogFields { response_bytes: n, ..self }
    }
}

} // verus!
