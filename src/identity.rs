use vstd::prelude::*;

verus! {

/// Whether `c` is a lowercase hexadecimal digit.
pub open spec fn is_lower_hex(c: char) -> bool {
    ('0' <= c && c <= '9') || ('a' <= c && c <= 'f')
}

/// Whether `s` is the canonical hyphenated lowercase text of a UUID:
/// 36 characters, hyphens at positions 8, 13, 18 and 23, hex digits elsewhere.
pub open spec fn is_hyphenated_uuid(s: Seq<char>) -> bool {
    &&& s.len() == 36
    &&& forall|i: int|
        0 <= i < 36 ==> if i == 8 || i == 13 || i == 18 || i == 23 {
            s[i] == '-'
        } else {
            is_lower_hex(#[trigger] s[i])
        }
}

/// Whether `s`, in hyphenated form, marks a version-4 UUID of the standard
/// variant: version digit `4` at position 14, variant digit `8`, `9`, `a` or
/// `b` at position 19.
pub open spec fn is_v4_text(s: Seq<char>) -> bool {
    &&& is_hyphenated_uuid(s)
    &&& s[14] == '4'
    &&& s[19] == '8' || s[19] == '9' || s[19] == 'a' || s[19] == 'b'
}

/// Relies on uuid's `Uuid::new_v4` and the `Display` of its `Hyphenated` form:
/// the text of a random version-4 UUID in canonical lowercase hyphenated form.
#[verifier::external_body]
fn random_hyphenated_uuid() -> (r: String)
    ensures
        is_v4_text(r@),
{
    uuid::Uuid::new_v4().as_hyphenated().to_string()
}

/// The opaque identity of one connection. It is fixed when the connection is
/// created and serves both as the attribution key of broadcast lines and as
/// the client's session token.
pub struct Uuid(pub String);

impl View for Uuid {
    type V = Seq<char>;

    open spec fn view(&self) -> Seq<char> {
        self.0@
    }
}

impl Uuid {
    /// A fresh identity: the hyphenated text of a random version-4 UUID.
    pub fn generate() -> (r: Uuid)
        ensures
            is_v4_text(r@),
    {
        Uuid(random_hyphenated_uuid())
    }

    /// The identity whose text is `value`, as read back from a session cookie.
    pub fn from_value(value: &str) -> (r: Uuid)
        ensures
            r@ == value@,
    {
        Uuid(value.to_owned())
    }

    /// The identity's text.
    pub fn as_str(&self) -> (r: &str)
        ensures
            r@ == self@,
    {
        self.0.as_str()
    }

    /// A copy of this identity with the same text.
    pub fn duplicate(&self) -> (r: Uuid)
        ensures
            r@ == self@,
    {
        Uuid(self.0.clone())
    }

    /// Whether two identities have the same text.
    pub fn same_as(&self, other: &Uuid) -> (r: bool)
        ensures
            r == (self@ == other@),
    {
        self.0 == other.0
    }
}

} // verus!
