//! HTTP header fields, held in `http::HeaderMap`.
use http::HeaderMap;
use vstd::prelude::*;
use vstd::string::*;

use crate::numbers;

verus! {

#[verifier::external_type_specification]
#[verifier::external_body]
#[verifier::reject_recursive_types(T)]
pub struct ExHeaderMap<T>(http::HeaderMap<T>);

#[verifier::external_type_specification]
#[verifier::external_body]
pub struct ExHeaderValue(http::HeaderValue);

/// The values that a header map holds under a field name, in order, each as its bytes.
pub uninterp spec fn header_values(h: http::HeaderMap, name: Seq<char>) -> Seq<Seq<u8>>;

/// The bytes of a list of byte strings.
pub open spec fn byte_strings(list: Seq<Vec<u8>>) -> Seq<Seq<u8>> {
    Seq::new(list.len(), |i: int| list[i]@)
}

/// `HeaderMap::get_all`: the values under a field name, in order.
#[verifier::external_body]
pub(crate) fn values_of(h: &HeaderMap, name: &str) -> (r: Vec<Vec<u8>>)
    ensures
        byte_strings(r@) == header_values(*h, name@),
{
    h.get_all(name).iter().map(|v| v.as_bytes().to_vec()).collect()
}

/// The text of an HTTP status: its number and its usual reason.
pub uninterp spec fn status_text(code: u16) -> Seq<char>;

/// `StatusCode::from_u16`, shown by its `Display`: the number, a blank, and the reason. A number of
/// three digits is accepted.
#[verifier::external_body]
pub(crate) fn show_status(code: u16) -> (r: String)
    requires
        100 <= code < 1000,
    ensures
        r@ == status_text(code),
        (numbers::decimal(code as nat) + " "@).is_prefix_of(r@),
{
    http::StatusCode::from_u16(code).unwrap().to_string()
}

/// Printable ASCII and the horizontal tab: the bytes of a header value that is text.
pub open spec fn is_visible_ascii(b: u8) -> bool {
    32 <= b < 127 || b == 9
}

/// The text of a header value, where each of its bytes is visible ASCII.
pub open spec fn header_text(bytes: Seq<u8>) -> Option<Seq<char>> {
    if forall|i: int| 0 <= i < bytes.len() ==> is_visible_ascii(#[trigger] bytes[i]) {
        Some(Seq::new(bytes.len(), |i: int| bytes[i] as char))
    } else {
        None
    }
}

/// Reads a header value as text.
pub fn read_header_text(bytes: &Vec<u8>) -> (r: Option<String>)
    ensures
        match r {
            Some(s) => header_text(bytes@) == Some(s@),
            None => header_text(bytes@) is None,
        },
{
    let mut out = String::new();
    let mut i: usize = 0;
    while i < bytes.len()
        invariant
            i <= bytes@.len(),
            forall|j: int| 0 <= j < i ==> is_visible_ascii(#[trigger] bytes@[j]),
            out@ == Seq::new(i as nat, |j: int| bytes@[j] as char),
        decreases bytes@.len() - i,
    {
        let b: u8 = bytes[i];
        if !((32 <= b && b < 127) || b == 9) {
            assert(!is_visible_ascii(bytes@[i as int]));
            return None;
        }
        out.push(b as char);
        i = i + 1;
        assert(out@ =~= Seq::new(i as nat, |j: int| bytes@[j] as char));
    }
    Some(out)
}

/// A header value is text exactly where each byte is printable ASCII or a tab, and its characters
/// are then its bytes.
pub proof fn law_header_text_is_its_bytes(bytes: Seq<u8>)
    ensures
        header_text(bytes) is Some <==> forall|i: int|
            0 <= i < bytes.len() ==> #[trigger] bytes[i] == 9 || 32 <= bytes[i] <= 126,
        header_text(bytes) matches Some(t) ==> t.len() == bytes.len() && forall|i: int|
            0 <= i < bytes.len() ==> #[trigger] t[i] as int == bytes[i] as int,
{
    if forall|i: int| 0 <= i < bytes.len() ==> #[trigger] bytes[i] == 9 || 32 <= bytes[i] <= 126 {
        assert forall|i: int| 0 <= i < bytes.len() implies is_visible_ascii(#[trigger] bytes[i]) by {
        }
    }
}

} // verus!
