//! Form bodies and query strings in `application/x-www-form-urlencoded` syntax.

use vstd::prelude::*;
use vstd::utf8::encode_utf8;

verus! {

/// The name and value of each field of a list, as characters.
pub open spec fn fields_view(fields: Seq<(String, String)>) -> Seq<(Seq<char>, Seq<char>)> {
    Seq::new(fields.len(), |i: int| (fields[i].0@, fields[i].1@))
}

/// A byte that the serialisation leaves as it is: an ASCII letter or digit,
/// `*`, `-`, `.` or `_`.
pub open spec fn is_plain_byte(b: u8) -> bool {
    ||| b == 0x2A
    ||| b == 0x2D
    ||| b == 0x2E
    ||| b == 0x5F
    ||| 0x30 <= b <= 0x39
    ||| 0x41 <= b <= 0x5A
    ||| 0x61 <= b <= 0x7A
}

/// The upper-case hexadecimal digit of a value below sixteen.
pub open spec fn hex_digit(n: u8) -> char {
    if n < 10 {
        (0x30 + n) as u8 as char
    } else {
        (0x37 + n) as u8 as char
    }
}

/// The serialisation of one byte: itself, `+` for a space, or `%` and two
/// hexadecimal digits.
pub open spec fn encoded_byte(b: u8) -> Seq<char> {
    if is_plain_byte(b) {
        seq![b as char]
    } else if b == 0x20 {
        seq!['+']
    } else {
        seq!['%', hex_digit(b / 16), hex_digit(b % 16)]
    }
}

/// The serialisation of a byte string, byte by byte.
pub open spec fn encoded_bytes(bytes: Seq<u8>) -> Seq<char>
    decreases bytes.len(),
{
    if bytes.len() == 0 {
        Seq::empty()
    } else {
        encoded_bytes(bytes.drop_last()) + encoded_byte(bytes.last())
    }
}

/// The serialisation of a text: that of its UTF-8 bytes.
pub open spec fn encoded_text(text: Seq<char>) -> Seq<char> {
    encoded_bytes(encode_utf8(text))
}

/// The serialisation of one field: name, `=`, value.
pub open spec fn encoded_field(field: (Seq<char>, Seq<char>)) -> Seq<char> {
    encoded_text(field.0) + seq!['='] + encoded_text(field.1)
}

/// The `application/x-www-form-urlencoded` serialisation of a list of
/// fields: the fields in order, with `&` between them.
pub open spec fn form_encoded(fields: Seq<(Seq<char>, Seq<char>)>) -> Seq<char>
    decreases fields.len(),
{
    if fields.len() == 0 {
        Seq::empty()
    } else if fields.len() == 1 {
        encoded_field(fields[0])
    } else {
        form_encoded(fields.drop_last()) + seq!['&'] + encoded_field(fields.last())
    }
}

/// The URL `base` with the pair `key`, `value` appended to its query; `None`
/// where `base` is no absolute URL.
pub uninterp spec fn url_with_query_pair(base: Seq<char>, key: Seq<char>, value: Seq<char>) -> Option<Seq<char>>;

/// Calls `url::form_urlencoded::Serializer::extend_pairs` on an empty target
/// and finishes it: each name and value is serialised byte by byte, a name
/// and its value are joined by `=`, and the fields by `&`. Believed, not
/// proved.
#[verifier::external_body]
pub(crate) fn encode_form(fields: &Vec<(String, String)>) -> (r: String)
    ensures
        r@ == form_encoded(fields_view(fields@)),
{
    url::form_urlencoded::Serializer::new(String::new()).extend_pairs(fields.iter()).finish()
}

/// Calls `url::Url::parse` and, on the parsed URL,
/// `query_pairs_mut().append_pair`. The result is a function of the three
/// texts alone, named by [`url_with_query_pair`]. Believed, not proved.
#[verifier::external_body]
pub(crate) fn append_query_pair(base: &str, key: &str, value: &str) -> (r: Option<String>)
    ensures
        crate::html::opt_text(r) == url_with_query_pair(base@, key@, value@),
{
    match url::Url::parse(base) {
        Ok(mut parsed) => {
            parsed.query_pairs_mut().append_pair(key, value);
            Some(String::from(parsed))
        },
        Err(_) => None,
    }
}

/// Makes one form field of a name and a value.
pub fn field(name: &str, value: &str) -> (r: (String, String))
    ensures
        r.0@ == name@,
        r.1@ == value@,
{
    (name.to_owned(), value.to_owned())
}

} // verus!
