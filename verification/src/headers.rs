//! Header fields of a request, kept in an `http::HeaderMap`.
//!
//! The map itself is opaque to the verifier. Its contents are spoken of through
//! [`fields`], and every access goes through one of the small functions below,
//! whose contracts are taken on trust from the sources of `http` and `bstr`.

use http::header::{HeaderMap, HeaderName, HeaderValue};
use vstd::prelude::*;

verus! {

/// `http::header::HeaderMap`, a multimap from field names to values.
#[verifier::external_type_specification]
#[verifier::external_body]
#[verifier::reject_recursive_types(T)]
pub struct ExHeaderMap<T>(http::header::HeaderMap<T>);

/// `http::header::HeaderValue`, the bytes of one field value.
#[verifier::external_type_specification]
#[verifier::external_body]
pub struct ExHeaderValue(http::header::HeaderValue);

/// The mathematical contents of a header map.
pub type Fields = Map<Seq<char>, Seq<Seq<u8>>>;

/// What a header map holds: for every field name that occurs, written in lower
/// case, the bytes of the values recorded under it, in the order in which
/// `HeaderMap::get_all` yields them.
pub uninterp spec fn fields(headers: HeaderMap<HeaderValue>) -> Map<Seq<char>, Seq<Seq<u8>>>;

/// The largest number of distinct field names with which a header map is
/// certain to take one more insertion. A map with more names takes it as well
/// unless its table is full.
///
/// The map's hash table never grows beyond 32768 slots. It asks for growth when
/// three quarters of the slots are taken or, under heavy collisions, when at
/// least a fifth are; with at most this many names neither can happen on a
/// table of the largest size.
pub const MAX_FIELD_NAMES: usize = 6553;

/// A character that a lower-case field name may hold: a lower-case letter, a
/// digit or a hyphen.
pub open spec fn is_name_char(c: char) -> bool {
    ('a' <= c && c <= 'z') || ('0' <= c && c <= '9') || c == '-'
}

/// A field name in the form in which the map stores it, short enough for the
/// map's fast path.
pub open spec fn is_field_name(name: Seq<char>) -> bool {
    &&& 0 < name.len() <= 64
    &&& forall|i: int| 0 <= i < name.len() ==> is_name_char(#[trigger] name[i])
}

/// A byte that a field value may hold: anything from 32 up but 127, or a tab.
pub open spec fn is_value_byte(b: u8) -> bool {
    (b >= 32 && b != 127) || b == 9
}

/// Bytes that make a well-formed field value.
pub open spec fn is_value_text(text: Seq<u8>) -> bool {
    forall|i: int| 0 <= i < text.len() ==> is_value_byte(#[trigger] text[i])
}

/// The byte strings that a vector of byte vectors holds.
pub open spec fn rows(values: Vec<Vec<u8>>) -> Seq<Seq<u8>> {
    Seq::new(values.len() as nat, |i: int| values[i]@)
}

/// The values recorded under `name`, none if the name does not occur.
pub open spec fn recorded(contents: Fields, name: Seq<char>) -> Seq<Seq<u8>> {
    if contents.dom().contains(name) {
        contents[name]
    } else {
        Seq::empty()
    }
}

/// A header map that is small enough to be certain to take another insertion.
pub open spec fn has_room(contents: Fields) -> bool {
    contents.dom().finite() && contents.dom().len() <= MAX_FIELD_NAMES
}

/// `parts` written one after the other with `separator` between neighbours.
pub open spec fn joined_with(separator: Seq<u8>, parts: Seq<Seq<u8>>) -> Seq<u8>
    decreases parts.len(),
{
    if parts.len() == 0 {
        Seq::empty()
    } else if parts.len() == 1 {
        parts[0]
    } else {
        joined_with(separator, parts.drop_last()) + separator + parts.last()
    }
}

/// `HeaderMap::remove`: every value recorded under `name` leaves the map, and
/// nothing else changes. A name that does not occur leaves the map as it was.
#[verifier::external_body]
pub(crate) fn remove_field(headers: &mut HeaderMap<HeaderValue>, name: &str)
    requires
        is_field_name(name@),
    ensures
        fields(*final(headers)) == fields(*old(headers)).remove(name@),
{
    let _ = headers.remove(name);
}

/// `HeaderMap::get_all`, with each value copied out through
/// `HeaderValue::as_bytes`: the values recorded under `name`, in order. A name
/// that occurs has at least one value, and every value is well-formed, since no
/// safe constructor of `HeaderValue` lets another byte in.
#[verifier::external_body]
pub(crate) fn field_values(headers: &HeaderMap<HeaderValue>, name: &str) -> (values: Vec<Vec<u8>>)
    requires
        is_field_name(name@),
    ensures
        rows(values) == recorded(fields(*headers), name@),
        fields(*headers).dom().contains(name@) ==> values.len() > 0,
        forall|i: int| 0 <= i < values.len() ==> is_value_text(#[trigger] values[i]@),
{
    headers.get_all(name).iter().map(|value| value.as_bytes().to_vec()).collect()
}

/// `HeaderMap::try_insert`, with the name made by `HeaderName::from_bytes` and
/// the value by `HeaderValue::try_from`. The name and the value are
/// well-formed, so neither conversion fails.
///
/// Where the insertion succeeds, `value` is afterwards the only value recorded
/// under `name`, and nothing else has changed. Where it fails, because the
/// map's table is full and cannot grow any more, the map holds what it held.
/// It succeeds on every map that has room.
#[verifier::external_body]
pub(crate) fn try_set_field(
    headers: &mut HeaderMap<HeaderValue>,
    name: &str,
    value: Vec<u8>,
) -> (done: bool)
    requires
        is_field_name(name@),
        is_value_text(value@),
    ensures
        done ==> fields(*final(headers)) == fields(*old(headers)).insert(name@, seq![value@]),
        !done ==> fields(*final(headers)) == fields(*old(headers)),
        has_room(fields(*old(headers))) ==> done,
{
    let name = HeaderName::from_bytes(name.as_bytes()).expect("a well-formed field name");
    let value = HeaderValue::try_from(value).expect("a well-formed field value");
    headers.try_insert(name, value).is_ok()
}

/// `bstr::join`: the parts in order, with the separator between each two
/// neighbours and nowhere else.
#[verifier::external_body]
pub(crate) fn join(separator: &[u8], parts: &Vec<Vec<u8>>) -> (joined: Vec<u8>)
    ensures
        joined@ == joined_with(separator@, rows(*parts)),
{
    bstr::join(separator, parts)
}

/// Joining well-formed values with a well-formed separator gives a well-formed
/// value.
pub proof fn lemma_joined_is_value_text(separator: Seq<u8>, parts: Seq<Seq<u8>>)
    requires
        is_value_text(separator),
        forall|i: int| 0 <= i < parts.len() ==> is_value_text(#[trigger] parts[i]),
    ensures
        is_value_text(joined_with(separator, parts)),
    decreases parts.len(),
{
    if parts.len() >= 2 {
        lemma_joined_is_value_text(separator, parts.drop_last());
    }
}

/// The name of the field that names the host a request is meant for.
pub open spec fn host_name() -> Seq<char> {
    "host"@
}

/// The name of the field that carries cookies.
pub open spec fn cookie_name() -> Seq<char> {
    "cookie"@
}

/// What stands between two cookie values that are joined: a semicolon and a
/// space.
pub open spec fn cookie_separator() -> Seq<u8> {
    seq![0x3bu8, 0x20u8]
}

/// The host field and the cookie field are two fields.
pub proof fn lemma_host_is_not_cookie()
    ensures
        host_name() != cookie_name(),
{
    reveal_strlit("host");
    reveal_strlit("cookie");
    assert(host_name().len() == 4);
    assert(cookie_name().len() == 6);
}

/// The fields that go out on the forwarding leg: no host field, and all cookie
/// values, if there are any, joined into a single one.
pub open spec fn normalized_fields(contents: Fields) -> Fields {
    let kept = contents.remove(host_name());
    if kept.dom().contains(cookie_name()) {
        kept.insert(cookie_name(), seq![joined_with(cookie_separator(), kept[cookie_name()])])
    } else {
        kept
    }
}

/// Every name that occurs has at least one value, and every value is
/// well-formed. The contents of every header map are of this kind.
pub open spec fn are_well_formed(contents: Fields) -> bool {
    forall|name: Seq<char>| #[trigger]
        contents.dom().contains(name) ==> contents[name].len() > 0 && forall|i: int|
            0 <= i < contents[name].len() ==> is_value_text(#[trigger] contents[name][i])
}

/// Normalization turns well-formed contents into well-formed contents: the
/// joined cookie value is a value that a header map can hold.
pub proof fn law_normalized_fields_are_well_formed(contents: Fields)
    requires
        are_well_formed(contents),
    ensures
        are_well_formed(normalized_fields(contents)),
{
    let kept = contents.remove(host_name());
    if kept.dom().contains(cookie_name()) {
        lemma_joined_is_value_text(cookie_separator(), kept[cookie_name()]);
    }
}

/// Makes the fields of a request fit for the forwarding leg: drops the host
/// field, which the outbound client writes anew from the URI, and joins the
/// cookie values into one, since only HTTP/2 allows several.
///
/// The answer tells whether that was done. It was unless there are cookie
/// values to join and the map, full to the limit of its table, did not take
/// the joined value; nothing but the host field has then left the map. A map
/// that has room always takes it.
pub fn normalize_fields(headers: &mut HeaderMap<HeaderValue>) -> (done: bool)
    ensures
        done ==> fields(*final(headers)) == normalized_fields(fields(*old(headers))),
        !done ==> fields(*final(headers)) == fields(*old(headers)).remove(host_name()),
        has_room(fields(*old(headers))) ==> done,
        !fields(*old(headers)).dom().contains(cookie_name()) ==> done,
{
    proof {
        reveal_strlit("host");
        reveal_strlit("cookie");
    }
    remove_field(headers, "host");
    let cookies = field_values(headers, "cookie");
    if cookies.len() > 0 {
        let separator: [u8; 2] = [0x3b, 0x20];
        let joined = join(separator.as_slice(), &cookies);
        proof {
            lemma_joined_is_value_text(separator@, rows(cookies));
        }
        try_set_field(headers, "cookie", joined)
    } else {
        true
    }
}

} // verus!
