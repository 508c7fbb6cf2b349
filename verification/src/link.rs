//! URLs, read and written by the `url` crate.
use vstd::prelude::*;
use vstd::string::*;

use crate::text;

verus! {

#[verifier::external_type_specification]
#[verifier::external_body]
pub struct ExParseError(url::ParseError);

/// The parts of a URL.
pub struct Link {
    pub text: String,
    pub scheme: String,
    pub host: Option<String>,
    pub port: Option<u16>,
    pub path: String,
    pub query_pairs: Vec<(String, String)>,
}

/// The value of a [`Link`].
pub struct LinkView {
    /// The URL as it is written.
    pub text: Seq<char>,
    pub scheme: Seq<char>,
    pub host: Option<Seq<char>>,
    /// The port, where it is not the scheme's own.
    pub port: Option<u16>,
    pub path: Seq<char>,
    /// The decoded names and values of the query, in order.
    pub query_pairs: Seq<(Seq<char>, Seq<char>)>,
}

/// The texts of a list of pairs.
pub open spec fn pair_texts(pairs: Seq<(String, String)>) -> Seq<(Seq<char>, Seq<char>)> {
    Seq::new(pairs.len(), |i: int| (pairs[i].0@, pairs[i].1@))
}

impl View for Link {
    type V = LinkView;

    open spec fn view(&self) -> LinkView {
        LinkView {
            text: self.text@,
            scheme: self.scheme@,
            host: text::opt_text(self.host),
            port: self.port,
            path: self.path@,
            query_pairs: pair_texts(self.query_pairs@),
        }
    }
}

/// What `Url::parse` makes of a text.
pub uninterp spec fn parsed_url(text: Seq<char>) -> Result<LinkView, url::ParseError>;

/// The URL with another scheme, where `Url::parse` and `Url::set_scheme` accept both.
pub uninterp spec fn url_with_scheme(text: Seq<char>, scheme: Seq<char>) -> Option<Seq<char>>;

/// `Url::parse`, its result taken apart by the accessors of `Url`.
#[verifier::external_body]
pub(crate) fn parse_url(text: &str) -> (r: Result<Link, url::ParseError>)
    ensures
        match r {
            Ok(u) => parsed_url(text@) == Ok::<LinkView, url::ParseError>(u@),
            Err(e) => parsed_url(text@) == Err::<LinkView, url::ParseError>(e),
        },
{
    url::Url::parse(text).map(
        |u| Link {
            text: u.to_string(),
            scheme: u.scheme().to_string(),
            host: u.host_str().map(str::to_string),
            port: u.port(),
            path: u.path().to_string(),
            query_pairs: u.query_pairs().into_owned().collect(),
        },
    )
}

/// The message of a `url::ParseError`.
pub uninterp spec fn url_error_text(e: url::ParseError) -> Seq<char>;

/// The `Display` of `url::ParseError`.
#[verifier::external_body]
pub(crate) fn show_url_error(e: &url::ParseError) -> (r: String)
    ensures
        r@ == url_error_text(*e),
{
    e.to_string()
}

/// `Url::set_scheme`. A text of this length keeps the positions inside the URL in range.
#[verifier::external_body]
pub(crate) fn replace_scheme(text: &str, scheme: &str) -> (r: Option<String>)
    requires
        text@.len() <= 0x1000_0000,
        scheme@.len() <= 0x1000,
    ensures
        text::opt_text(r) == url_with_scheme(text@, scheme@),
{
    let mut u = url::Url::parse(text).ok()?;
    u.set_scheme(scheme).ok()?;
    Some(u.to_string())
}

/// The character of a hexadecimal digit, in upper case.
pub open spec fn upper_hex_char(d: int) -> char {
    if d < 10 {
        (48 + d) as char
    } else {
        (55 + d) as char
    }
}

/// One byte in a form: letters, digits and `*-._` stay, a blank becomes a plus sign, and any other
/// byte is written as a percent sign and two digits.
pub open spec fn form_byte(b: u8) -> Seq<char> {
    if ('0' as u8) <= b <= ('9' as u8) || ('A' as u8) <= b <= ('Z' as u8) || ('a' as u8) <= b <= (
    'z' as u8) || b == ('*' as u8) || b == ('-' as u8) || b == ('.' as u8) || b == ('_' as u8) {
        seq![b as char]
    } else if b == 32 {
        seq!['+']
    } else {
        seq!['%', upper_hex_char(b as int / 16), upper_hex_char(b as int % 16)]
    }
}

/// A byte string in a form.
pub open spec fn form_bytes(bytes: Seq<u8>) -> Seq<char>
    decreases bytes.len(),
{
    if bytes.len() == 0 {
        seq![]
    } else {
        form_bytes(bytes.drop_last()) + form_byte(bytes.last())
    }
}

/// A list of names and values as a form writes it.
pub open spec fn form_text(pairs: Seq<(Seq<char>, Seq<char>)>) -> Seq<char>
    decreases pairs.len(),
{
    if pairs.len() == 0 {
        seq![]
    } else {
        let pair = form_bytes(vstd::utf8::encode_utf8(pairs.last().0)) + seq!['='] + form_bytes(
            vstd::utf8::encode_utf8(pairs.last().1),
        );
        if pairs.len() == 1 {
            pair
        } else {
            form_text(pairs.drop_last()) + seq!['&'] + pair
        }
    }
}

/// The text of a result, where it is one.
pub open spec fn ok_text(r: Result<String, url::ParseError>) -> Option<Seq<char>> {
    match r {
        Ok(s) => Some(s@),
        Err(_) => None,
    }
}

/// `Url::parse_with_params` on the address of the login page: the address is kept as it is written,
/// having neither query nor fragment, and the pairs follow it behind a question mark, as a form
/// writes them.
#[verifier::external_body]
pub(crate) fn append_params(base: &str, pairs: &Vec<(String, String)>) -> (r: Result<
    String,
    url::ParseError,
>)
    requires
        base@ == "https://account.xiaomi.com/oauth2/authorize"@,
    ensures
        ok_text(r) == Some(base@ + "?"@ + form_text(pair_texts(pairs@))),
{
    url::Url::parse_with_params(base, pairs).map(|u| u.to_string())
}

/// The value of a hexadecimal digit in upper case.
pub open spec fn upper_hex_value(c: char) -> int {
    if '0' <= c <= '9' {
        c as int - '0' as int
    } else {
        c as int - 'A' as int + 10
    }
}

/// In a form, letters, digits and four signs stand for themselves, a blank is a plus sign, and any
/// other byte is read back from the two digits behind a percent sign.
pub proof fn law_form_bytes_are_read_back(b: u8)
    ensures
        b == 32 ==> form_byte(b) == seq!['+'],
        '0' <= (b as char) <= '9' || 'A' <= (b as char) <= 'Z' || 'a' <= (b as char) <= 'z' || b
            as char == '*' || b as char == '-' || b as char == '.' || b as char == '_'
            ==> form_byte(b) == seq![b as char],
        b != 32 && !('0' <= (b as char) <= '9' || 'A' <= (b as char) <= 'Z' || 'a' <= (b as char)
            <= 'z' || b as char == '*' || b as char == '-' || b as char == '.' || b as char == '_')
            ==> {
            &&& form_byte(b).len() == 3
            &&& form_byte(b)[0] == '%'
            &&& upper_hex_value(form_byte(b)[1]) * 16 + upper_hex_value(form_byte(b)[2]) == b
        },
{
}

/// A form writes its bytes one after the other, and its pairs one after the other: name, equals
/// sign and value, with an ampersand between two pairs.
pub proof fn law_forms_are_joined(
    a: Seq<u8>,
    b: u8,
    pairs: Seq<(Seq<char>, Seq<char>)>,
    name: Seq<char>,
    value: Seq<char>,
)
    ensures
        form_bytes(Seq::empty()) == Seq::<char>::empty(),
        form_bytes(a.push(b)) == form_bytes(a) + form_byte(b),
        form_text(seq![(name, value)]) == form_bytes(vstd::utf8::encode_utf8(name)) + seq!['=']
            + form_bytes(vstd::utf8::encode_utf8(value)),
        pairs.len() > 0 ==> form_text(pairs.push((name, value))) == form_text(pairs) + seq!['&']
            + form_text(seq![(name, value)]),
        form_text(Seq::empty()) == Seq::<char>::empty(),
{
    assert(a.push(b).drop_last() =~= a);
    assert(pairs.push((name, value)).drop_last() =~= pairs);
    assert(seq![(name, value)].last() == (name, value));
}

} // verus!
