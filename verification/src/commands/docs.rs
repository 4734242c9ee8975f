//! The docs command: which page of the ChimeraX documentation to open.

use vstd::prelude::*;
use vstd::utf8::encode_utf8;
use crate::text::{push_str, string_of};

verus! {

/// The user documentation.
pub const USER_DOCS_URL: &'static str = "https://www.cgl.ucsf.edu/chimerax/docs/user/";

/// The developer documentation.
pub const DEV_DOCS_URL: &'static str = "https://www.cgl.ucsf.edu/chimerax/docs/devel/";

/// The API reference.
pub const API_DOCS_URL: &'static str = "https://www.cgl.ucsf.edu/chimerax/docs/devel/modules/";

/// Arguments for the docs command.
#[derive(Clone, Debug)]
pub struct DocsArgs {
    /// Open developer documentation.
    pub dev: bool,
    /// Open API reference.
    pub api: bool,
    /// Search query.
    pub query: Option<String>,
}

/// Whether a byte stands for itself in a percent-encoded text: a letter or
/// a digit of ASCII, or one of `-`, `.`, `_`, `~`.
pub open spec fn is_unreserved(b: u8) -> bool {
    (0x30 <= b && b <= 0x39) || (0x41 <= b && b <= 0x5a) || (0x61 <= b && b <= 0x7a) || b == 0x2d
        || b == 0x2e || b == 0x5f || b == 0x7e
}

/// The hexadecimal digit of a number below sixteen, in uppercase.
pub open spec fn hex_digit(d: int) -> char {
    if d < 10 {
        (0x30 + d) as char
    } else {
        (0x41 + d - 10) as char
    }
}

/// A byte as it stands in a percent-encoded text.
pub open spec fn percent_encoded_byte(b: u8) -> Seq<char> {
    if is_unreserved(b) {
        seq![b as char]
    } else {
        seq!['%', hex_digit(b as int / 16), hex_digit(b as int % 16)]
    }
}

/// Bytes as they stand in a percent-encoded text.
pub open spec fn percent_encoded_bytes(bytes: Seq<u8>) -> Seq<char>
    decreases bytes.len(),
{
    if bytes.len() == 0 {
        Seq::empty()
    } else {
        percent_encoded_bytes(bytes.drop_last()) + percent_encoded_byte(bytes.last())
    }
}

/// A text, percent-encoded: each byte of its UTF-8 form stands for itself
/// if it is unreserved, and is written as `%` and two hexadecimal digits
/// otherwise.
pub open spec fn percent_encoded(s: Seq<char>) -> Seq<char> {
    percent_encoded_bytes(encode_utf8(s))
}

/// `urlencoding::encode` percent-encodes every byte of the UTF-8 form of
/// the text except letters and digits of ASCII and `-`, `_`, `.`, `~`; the
/// hexadecimal digits are in uppercase.
#[verifier::external_body]
fn url_encode(data: &str) -> (encoded: String)
    ensures
        encoded@ == percent_encoded(data@),
{
    urlencoding::encode(data).into_owned()
}

/// The page that is opened when nothing is searched for: the API reference
/// before the developer documentation before the user documentation.
pub open spec fn base_url(dev: bool, api: bool) -> Seq<char> {
    if api {
        API_DOCS_URL@
    } else if dev {
        DEV_DOCS_URL@
    } else {
        USER_DOCS_URL@
    }
}

/// The site that a search is restricted to.
pub open spec fn search_site(dev: bool, api: bool) -> Seq<char> {
    if dev || api {
        "cgl.ucsf.edu/chimerax/docs/devel"@
    } else {
        "cgl.ucsf.edu/chimerax/docs/user"@
    }
}

/// The address of a search for the query, given in its encoded form.
pub open spec fn search_url(dev: bool, api: bool, encoded_query: Seq<char>) -> Seq<char> {
    "https://www.google.com/search?q=site:"@ + search_site(dev, api) + "+"@ + encoded_query
}

/// The address that the docs command opens.
pub open spec fn docs_url(dev: bool, api: bool, query: Option<Seq<char>>) -> Seq<char> {
    match query {
        Some(q) => search_url(dev, api, percent_encoded(q)),
        None => base_url(dev, api),
    }
}

/// The address of a search for a query that is already encoded.
pub fn search_address(dev: bool, api: bool, encoded_query: &str) -> (url: String)
    ensures
        url@ == search_url(dev, api, encoded_query@),
{
    let mut url: Vec<char> = Vec::new();
    push_str(&mut url, "https://www.google.com/search?q=site:");
    if dev || api {
        push_str(&mut url, "cgl.ucsf.edu/chimerax/docs/devel");
    } else {
        push_str(&mut url, "cgl.ucsf.edu/chimerax/docs/user");
    }
    push_str(&mut url, "+");
    push_str(&mut url, encoded_query);
    assert(url@ =~= search_url(dev, api, encoded_query@));
    string_of(&url)
}

/// Builds the documentation address for the arguments.
pub fn build_url(args: &DocsArgs) -> (url: String)
    ensures
        url@ == docs_url(
            args.dev,
            args.api,
            match args.query {
                Some(q) => Some(q@),
                None => None,
            },
        ),
{
    match &args.query {
        Some(query) => {
            let encoded = url_encode(query.as_str());
            search_address(args.dev, args.api, encoded.as_str())
        },
        None => {
            if args.api {
                API_DOCS_URL.to_owned()
            } else if args.dev {
                DEV_DOCS_URL.to_owned()
            } else {
                USER_DOCS_URL.to_owned()
            }
        },
    }
}

} // verus!
