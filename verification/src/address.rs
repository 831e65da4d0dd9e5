//! Web addresses. The `url` crate parses them and rewrites their paths; this
//! module holds what the library reads from a parsed address, and the
//! contracts under which it calls the crate.

use url::ParseError;
use url::Url;
use vstd::prelude::*;
use vstd::string::*;
use vstd::utf8::encode_utf8;

verus! {

#[verifier::external_type_specification]
#[verifier::external_body]
pub struct ExParseError(ParseError);

/// What the library reads from a parsed address.
#[derive(Debug)]
pub struct Address {
    /// The address in its normal form.
    pub text: String,
    /// The scheme, without the colon.
    pub scheme: String,
    /// The host, where the address has one.
    pub host: Option<String>,
}

/// The value of an [`Address`].
pub struct AddressView {
    pub text: Seq<char>,
    pub scheme: Seq<char>,
    pub host: Option<Seq<char>>,
}

impl View for Address {
    type V = AddressView;

    open spec fn view(&self) -> AddressView {
        AddressView {
            text: self.text@,
            scheme: self.scheme@,
            host: match self.host {
                Some(h) => Some(h@),
                None => None,
            },
        }
    }
}

/// The address that `url::Url::parse` reads from `input`: its serialization,
/// its scheme and its host. `None` where the parser reports an error.
pub uninterp spec fn url_parse(input: Seq<char>) -> Option<AddressView>;

/// The serialization of the address read from `input` once
/// `url::Url::set_path` has replaced its path by `path`.
pub uninterp spec fn url_with_path(input: Seq<char>, path: Seq<char>) -> Seq<char>;

/// The longest serialization that the `url` crate can index.
pub const ADDRESS_LIMIT: u64 = 0xFFFF_FFFF;

/// Whether the address `text` leaves room for the path `path`. A path takes
/// at most three bytes of the serialization for each of its own, and a few
/// more for the separators that the crate adds.
pub open spec fn path_fits(text: Seq<char>, path: Seq<char>) -> bool {
    encode_utf8(text).len() + 3 * encode_utf8(path).len() + 16 <= ADDRESS_LIMIT
}

/// Calls `url::Url::parse` on `input` and reads the serialization, the
/// scheme and the host from the URL that it returns. The error of the parser
/// is handed on as it is.
#[verifier::external_body]
pub(crate) fn parse_address(input: &str) -> (r: Result<Address, ParseError>)
    ensures
        match r {
            Ok(a) => url_parse(input@) == Some(a@),
            Err(_) => url_parse(input@) is None,
        },
{
    match Url::parse(input) {
        Ok(url) => Ok(
            Address {
                scheme: url.scheme().to_string(),
                host: url.host_str().map(str::to_string),
                text: url.into(),
            },
        ),
        Err(e) => Err(e),
    }
}

/// Calls `url::Url::parse` on `base` and then `url::Url::set_path` with
/// `path` on the URL that it returns, and hands back the serialization.
///
/// `set_path` panics where the new serialization has more than
/// `ADDRESS_LIMIT` bytes, which the precondition rules out.
#[verifier::external_body]
pub(crate) fn replace_path(base: &str, path: &str) -> (r: Result<String, ParseError>)
    requires
        url_parse(base@) matches Some(a) ==> path_fits(a.text, path@),
    ensures
        match r {
            Ok(s) => url_parse(base@) is Some && s@ == url_with_path(base@, path@),
            Err(_) => url_parse(base@) is None,
        },
{
    match Url::parse(base) {
        Ok(mut url) => {
            url.set_path(path);
            Ok(url.into())
        },
        Err(e) => Err(e),
    }
}

/// Whether `path_fits(text, path)` holds.
pub fn has_room(text: &str, path: &str) -> (r: bool)
    ensures
        r == path_fits(text@, path@),
{
    let t = text.as_bytes().len();
    let p = path.as_bytes().len();
    if t > 0xFFFF_FFFF || p > 0xFFFF_FFFF {
        return false;
    }
    let needed: u64 = t as u64 + 3 * (p as u64) + 16;
    needed <= ADDRESS_LIMIT
}

} // verus!
