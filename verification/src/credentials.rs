//! The credentials of the Basic scheme, and reading them from the lines of an
//! `Authorization` header.

use vstd::prelude::*;
use iron::headers::{Authorization, Basic, Header};

verus! {

/// The name of the header that carries credentials.
pub const AUTHORIZATION_HEADER: &'static str = "Authorization";

/// What an `Authorization` header of the Basic scheme carries.
#[derive(Debug, PartialEq, Eq)]
pub struct Credentials {
    /// The username, which may be empty.
    pub username: String,
    /// The password; `None` where the header held no `:` after the username.
    pub password: Option<String>,
}

/// The texts of a [`Credentials`] value.
pub struct CredentialsView {
    pub username: Seq<char>,
    pub password: Option<Seq<char>>,
}

impl CredentialsView {
    /// Whether there is a password and it is not empty.
    pub open spec fn has_password(self) -> bool {
        self.password matches Some(password) && password.len() > 0
    }
}

impl View for Credentials {
    type V = CredentialsView;

    open spec fn view(&self) -> CredentialsView {
        CredentialsView {
            username: self.username@,
            password: match self.password {
                Some(password) => Some(password@),
                None => None,
            },
        }
    }
}

impl DeepView for Credentials {
    type V = CredentialsView;

    open spec fn deep_view(&self) -> CredentialsView {
        self@
    }
}

/// What `Header::parse_header` of `Authorization<Basic>` in hyper makes of the
/// lines of an `Authorization` header: the credentials where it returns `Ok`,
/// `None` where it returns `Err`. It decodes base64 and splits at the first
/// `:`; nothing here says more of it than that it depends on the bytes alone.
pub uninterp spec fn basic_authorization(lines: Seq<Seq<u8>>) -> Option<CredentialsView>;

/// The bytes `0x80..=0xBF`, which continue a character in UTF-8.
pub open spec fn is_continuation_byte(byte: u8) -> bool {
    0x80 <= byte <= 0xBF
}

/// Whether the parser can be given `lines` without fear of a panic.
///
/// Of a single line that starts with `Basic` the parser takes the text from
/// byte 6 on, which panics where that byte continues a character; and to
/// decode the text it multiplies its length by four.
pub open spec fn parser_takes(lines: Seq<Seq<u8>>) -> bool {
    lines.len() == 1 ==> {
        &&& lines[0].len() * 4 <= usize::MAX
        &&& lines[0].len() > 6 ==> !is_continuation_byte(lines[0][6])
    }
}

/// The credentials that the lines of an `Authorization` header hold: what
/// the parser makes of them where it can be given them, and none otherwise.
pub open spec fn credentials_in(lines: Seq<Seq<u8>>) -> Option<CredentialsView> {
    if parser_takes(lines) {
        basic_authorization(lines)
    } else {
        None
    }
}

/// Calls `Header::parse_header` of `Authorization<Basic>`, the header parser of
/// hyper, which iron hands on as `iron::headers`.
///
/// Trusted, not proved: the parser returns on every input that the `requires`
/// admits, and what it returns is a function of the bytes of the lines alone.
/// Its `Ok` comes back as `Some` with the same username and password, its `Err`
/// as `None`.
#[verifier::external_body]
fn parse_authorization(lines: &[Vec<u8>]) -> (parsed: Option<Credentials>)
    requires
        parser_takes(lines.deep_view()),
    ensures
        parsed.deep_view() == basic_authorization(lines.deep_view()),
{
    match Authorization::<Basic>::parse_header(lines) {
        Ok(Authorization(Basic { username, password })) => Some(Credentials { username, password }),
        Err(_) => None,
    }
}

/// Tests whether the parser can be given `lines`.
fn can_parse(lines: &[Vec<u8>]) -> (ok: bool)
    ensures
        ok == parser_takes(lines.deep_view()),
{
    if lines.len() != 1 {
        return true;
    }
    let line = &lines[0];
    assert(lines.deep_view()[0] == line@);
    if line.len() > usize::MAX / 4 {
        return false;
    }
    if line.len() > 6 {
        let byte = line[6];
        !(0x80 <= byte && byte <= 0xBF)
    } else {
        true
    }
}

/// Reads the credentials of the Basic scheme from the lines of an
/// `Authorization` header.
///
/// Gives `None` where the lines are not a well-formed header of that scheme,
/// and never panics.
pub fn read_authorization(lines: &[Vec<u8>]) -> (credentials: Option<Credentials>)
    ensures
        credentials.deep_view() == credentials_in(lines.deep_view()),
{
    if can_parse(lines) {
        parse_authorization(lines)
    } else {
        None
    }
}

} // verus!
