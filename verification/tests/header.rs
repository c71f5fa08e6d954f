use basic_auth::credentials::{read_authorization, Credentials, AUTHORIZATION_HEADER};
use basic_auth::error::AuthError;
use basic_auth::decision::{before, Decision};
use basic_auth::policy::{ClosurePolicy, SingleUser};
use basic_auth::text::str_eq;
use iron::headers::{Authorization, Basic, Bearer};
use iron::Headers;

fn one_line(line: &[u8]) -> Vec<Vec<u8>> {
    vec![line.to_vec()]
}

fn read(line: &[u8]) -> Option<Credentials> {
    read_authorization(&one_line(line))
}

fn some(username: &str, password: Option<&str>) -> Option<Credentials> {
    Some(Credentials { username: username.to_string(), password: password.map(|p| p.to_string()) })
}

fn alice() -> SingleUser {
    SingleUser::new("alice".to_string(), "s3cret".to_string())
}

fn refused(message: &'static str) -> Decision {
    Decision::Deny { status: 401, message, challenge: None }
}

fn challenged() -> Decision {
    Decision::Deny {
        status: 401,
        message: "authentication error",
        challenge: Some("Basic realm=\"main\""),
    }
}

#[test]
fn reads_username_and_password() {
    // alice:s3cret
    assert_eq!(read(b"Basic YWxpY2U6czNjcmV0"), some("alice", Some("s3cret")));
    // Aladdin:open sesame
    assert_eq!(read(b"Basic QWxhZGRpbjpvcGVuIHNlc2FtZQ=="), some("Aladdin", Some("open sesame")));
}

#[test]
fn reads_empty_password() {
    // alice:
    assert_eq!(read(b"Basic YWxpY2U6"), some("alice", Some("")));
}

#[test]
fn reads_username_alone() {
    // alice
    assert_eq!(read(b"Basic YWxpY2U="), some("alice", None));
}

#[test]
fn reads_empty_username() {
    // :x
    assert_eq!(read(b"Basic Ong="), some("", Some("x")));
}

#[test]
fn rejects_other_schemes_and_broken_lines() {
    assert_eq!(read(b""), None);
    assert_eq!(read(b"Basic"), None);
    assert_eq!(read(b"Basic "), None);
    assert_eq!(read(b"Bearer YWxpY2U6czNjcmV0"), None);
    assert_eq!(read(b"Basic not base64!"), None);
    assert_eq!(read(b"Basic YWxpY2U6czNjcmV0A"), None);
    assert_eq!(read(b"\xff\xfe Basic"), None);
    // base64 of bytes that are no UTF-8
    assert_eq!(read(b"Basic //4="), None);
}

#[test]
fn rejects_anything_but_one_line() {
    assert_eq!(read_authorization(&[]), None);
    let twice = vec![b"Basic YWxpY2U6czNjcmV0".to_vec(), b"Basic YWxpY2U6czNjcmV0".to_vec()];
    assert_eq!(read_authorization(&twice), None);
}

#[test]
fn rejects_a_line_cut_inside_a_character() {
    // "Basic" and then a character of two bytes, so that the seventh byte
    // continues it
    let line = "Basic\u{e9}YWxpY2U6czNjcmV0".as_bytes().to_vec();
    assert_eq!(line[6], 0xa9);
    assert_eq!(read_authorization(&[line]), None);
    assert_eq!(read(b"Basic \x80\x80\x80"), None);
    assert_eq!(read(b"Basic\xc3\xa9"), None);
}

#[test]
fn before_allows_right_credentials() {
    assert_eq!(before(&alice(), Some(&one_line(b"Basic YWxpY2U6czNjcmV0"))), Decision::Allow);
}

#[test]
fn before_refuses_wrong_credentials() {
    // alice:wrong
    assert_eq!(
        before(&alice(), Some(&one_line(b"Basic YWxpY2U6d3Jvbmc="))),
        refused("Wrong username or password.")
    );
}

#[test]
fn before_refuses_empty_password() {
    assert_eq!(before(&alice(), Some(&one_line(b"Basic YWxpY2U6"))), refused("No password found."));
    assert_eq!(before(&alice(), Some(&one_line(b"Basic YWxpY2U="))), refused("No password found."));
}

#[test]
fn before_challenges_without_header() {
    assert_eq!(before(&alice(), None), challenged());
}

#[test]
fn before_challenges_on_unreadable_header() {
    assert_eq!(before(&alice(), Some(&one_line(b"Bearer abc"))), challenged());
    assert_eq!(before(&alice(), Some(&one_line(b"Basic\xc3\xa9YWxpY2U6czNjcmV0"))), challenged());
    assert_eq!(before(&alice(), Some(&[])), challenged());
}

#[test]
fn before_with_closure_policy() {
    let policy = ClosurePolicy::new(|u: &str, p: &str| u.len() > 0 && p == "x");
    // bob:x
    assert_eq!(before(&policy, Some(&one_line(b"Basic Ym9iOng="))), Decision::Allow);
    // :x
    assert_eq!(
        before(&policy, Some(&one_line(b"Basic Ong="))),
        refused("Wrong username or password.")
    );
}

#[test]
fn password_may_hold_colons() {
    // alice:a:b gives the password up to the second colon
    assert_eq!(read(b"Basic YWxpY2U6YTpi"), some("alice", Some("a")));
}

#[test]
fn header_name() {
    assert_eq!(AUTHORIZATION_HEADER, "Authorization");
}

#[test]
fn auth_error_description() {
    assert_eq!(AuthError.description(), "authentication error");
}

#[test]
fn str_eq_is_equality_of_texts() {
    assert!(str_eq("", ""));
    assert!(str_eq("abc", "abc"));
    assert!(!str_eq("abc", "abd"));
    assert!(!str_eq("abc", "ab"));
    assert!(!str_eq("ab", "abc"));
    assert!(!str_eq("", "a"));
    assert!(str_eq("na\u{ef}ve", "na\u{ef}ve"));
    assert!(!str_eq("na\u{ef}ve", "naive"));
}

#[test]
fn before_on_the_lines_of_a_header_map() {
    let mut sent = Headers::new();
    sent.set_raw("authorization", vec![b"Basic YWxpY2U6czNjcmV0".to_vec()]);
    assert_eq!(before(&alice(), sent.get_raw(AUTHORIZATION_HEADER)), Decision::Allow);

    let mut set = Headers::new();
    set.set(Authorization(Basic { username: "alice".to_string(), password: None }));
    assert_eq!(before(&alice(), set.get_raw(AUTHORIZATION_HEADER)), refused("No password found."));

    let mut other = Headers::new();
    other.set(Authorization(Bearer { token: "YWxpY2U6czNjcmV0".to_string() }));
    assert_eq!(before(&alice(), other.get_raw(AUTHORIZATION_HEADER)), challenged());

    assert_eq!(before(&alice(), Headers::new().get_raw(AUTHORIZATION_HEADER)), challenged());
}
