//! The security headers that every response of the panel carries.

use vstd::prelude::*;

verus! {

/// What browsers may load and from where.
pub open spec fn content_security_policy() -> Seq<char> {
    "default-src 'self'; script-src 'self'; style-src 'self' 'unsafe-inline' https://fonts.googleapis.com; font-src 'self' https://fonts.gstatic.com; img-src 'self' data: blob:; connect-src 'self'; frame-ancestors 'none'; base-uri 'self'; form-action 'self';"@
}

/// The browser features that the panel gives up.
pub open spec fn permissions_policy() -> Seq<char> {
    "geolocation=(), microphone=(), camera=(), payment=(), usb=(), magnetometer=(), gyroscope=(), accelerometer=()"@
}

/// The headers of every response, by name and value.
pub open spec fn common_headers() -> Seq<(Seq<char>, Seq<char>)> {
    seq![
        ("content-security-policy"@, content_security_policy()),
        ("x-frame-options"@, "DENY"@),
        ("x-content-type-options"@, "nosniff"@),
        ("x-xss-protection"@, "1; mode=block"@),
        ("referrer-policy"@, "strict-origin-when-cross-origin"@),
        ("permissions-policy"@, permissions_policy()),
    ]
}

/// The headers of a response: the common ones, and in production the
/// promise to be reached over HTTPS only.
pub open spec fn security_header_texts(production: bool) -> Seq<(Seq<char>, Seq<char>)> {
    if production {
        common_headers().push(
            ("strict-transport-security"@, "max-age=31536000; includeSubDomains; preload"@),
        )
    } else {
        common_headers()
    }
}

/// The characters of each name and value.
pub open spec fn header_texts(headers: Seq<(String, String)>) -> Seq<(Seq<char>, Seq<char>)> {
    headers.map_values(|h: (String, String)| (h.0@, h.1@))
}

/// The headers to set on a response.
pub fn security_headers(production: bool) -> (headers: Vec<(String, String)>)
    ensures
        header_texts(headers@) == security_header_texts(production),
{
    let mut headers: Vec<(String, String)> = Vec::new();
    headers.push(
        (
            "content-security-policy".to_owned(),
            "default-src 'self'; script-src 'self'; style-src 'self' 'unsafe-inline' https://fonts.googleapis.com; font-src 'self' https://fonts.gstatic.com; img-src 'self' data: blob:; connect-src 'self'; frame-ancestors 'none'; base-uri 'self'; form-action 'self';".to_owned(),
        ),
    );
    headers.push(("x-frame-options".to_owned(), "DENY".to_owned()));
    headers.push(("x-content-type-options".to_owned(), "nosniff".to_owned()));
    headers.push(("x-xss-protection".to_owned(), "1; mode=block".to_owned()));
    headers.push(("referrer-policy".to_owned(), "strict-origin-when-cross-origin".to_owned()));
    headers.push(
        (
            "permissions-policy".to_owned(),
            "geolocation=(), microphone=(), camera=(), payment=(), usb=(), magnetometer=(), gyroscope=(), accelerometer=()".to_owned(),
        ),
    );
    assert(header_texts(headers@) =~= common_headers());
    if production {
        headers.push(
            (
                "strict-transport-security".to_owned(),
                "max-age=31536000; includeSubDomains; preload".to_owned(),
            ),
        );
        assert(header_texts(headers@) =~= security_header_texts(true));
    }
    headers
}

} // verus!
