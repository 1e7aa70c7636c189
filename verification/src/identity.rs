use vstd::prelude::*;
use vstd::std_specs::convert::FromSpecImpl;

verus! {

/// The name of the lock that candidates compete for.
pub struct Key(String);

impl View for Key {
    type V = Seq<char>;

    closed spec fn view(&self) -> Seq<char> {
        self.0@
    }
}

impl From<String> for Key {
    fn from(value: String) -> (res: Self)
        ensures
            res@ == value@,
    {
        Key(value)
    }
}

impl FromSpecImpl<String> for Key {
    open spec fn obeys_from_spec() -> bool {
        true
    }

    closed spec fn from_spec(v: String) -> Key {
        Key(v)
    }
}

impl From<&str> for Key {
    fn from(value: &str) -> (res: Self)
        ensures
            res@ == value@,
    {
        Key(value.to_owned())
    }
}

/// Of a key made from a `&str` only its text is promised (by `from` itself):
/// the new `String` is equal to no `String` that a spec function could name.
impl FromSpecImpl<&str> for Key {
    open spec fn obeys_from_spec() -> bool {
        false
    }

    closed spec fn from_spec(v: &str) -> Key {
        choose|k: Key| k@ == v@
    }
}

impl From<Key> for String {
    fn from(value: Key) -> (res: Self)
        ensures
            res@ == value@,
    {
        value.0
    }
}

impl FromSpecImpl<Key> for String {
    open spec fn obeys_from_spec() -> bool {
        true
    }

    closed spec fn from_spec(v: Key) -> String {
        v.0
    }
}

impl From<&Key> for String {
    fn from(value: &Key) -> (res: Self)
        ensures
            res@ == value@,
    {
        value.0.clone()
    }
}

impl FromSpecImpl<&Key> for String {
    open spec fn obeys_from_spec() -> bool {
        true
    }

    closed spec fn from_spec(v: &Key) -> String {
        v.0
    }
}


/// The identity of one candidate: the 128-bit value of a UUID, in the byte
/// order in which UUIDs are written (most significant byte first).
#[derive(Clone, Copy, Debug, PartialEq, Eq, Structural)]
pub struct LeaderId(u128);

impl View for LeaderId {
    type V = u128;

    closed spec fn view(&self) -> u128 {
        self.0
    }
}

/// The sixteen bytes of a UUID whose value is `v`, most significant first.
pub open spec fn uuid_bytes(v: u128) -> Seq<u8> {
    Seq::new(16, |i: int| ((v >> ((120 - 8 * i) as u128)) & 0xff) as u8)
}

/// The `k`-th hexadecimal digit of `v`, counted from the most significant.
pub open spec fn uuid_nibble(v: u128, k: int) -> u128 {
    (v >> ((124 - 4 * k) as u128)) & 0xf
}

/// The lower-case character of a hexadecimal digit.
pub open spec fn hex_char(d: u128) -> char {
    if d < 10 {
        (48 + d) as char
    } else {
        (87 + d) as char
    }
}

/// How many of the hyphens of the hyphenated form stand before position `i`.
pub open spec fn hyphens_before(i: int) -> int {
    if i < 8 {
        0
    } else if i < 13 {
        1
    } else if i < 18 {
        2
    } else if i < 23 {
        3
    } else {
        4
    }
}

/// The hyphenated lower-case text of a UUID: 8-4-4-4-12 hexadecimal digits.
pub open spec fn hyphenated_text(v: u128) -> Seq<char> {
    Seq::new(
        36,
        |i: int|
            if i == 8 || i == 13 || i == 18 || i == 23 {
                '-'
            } else {
                hex_char(uuid_nibble(v, i - hyphens_before(i)))
            },
    )
}

/// The value that `uuid::Uuid::parse_str` reads from a text, if it reads one.
pub uninterp spec fn uuid_parse_text(text: Seq<char>) -> Option<u128>;

/// Two values with the same sixteen bytes are the same value.
pub proof fn lemma_uuid_bytes_injective(a: u128, b: u128)
    requires
        uuid_bytes(a) == uuid_bytes(b),
    ensures
        a == b,
{
    let sa = uuid_bytes(a);
    let sb = uuid_bytes(b);
    assert(sa[0] == sb[0]);
    assert(sa[1] == sb[1]);
    assert(sa[2] == sb[2]);
    assert(sa[3] == sb[3]);
    assert(sa[4] == sb[4]);
    assert(sa[5] == sb[5]);
    assert(sa[6] == sb[6]);
    assert(sa[7] == sb[7]);
    assert(sa[8] == sb[8]);
    assert(sa[9] == sb[9]);
    assert(sa[10] == sb[10]);
    assert(sa[11] == sb[11]);
    assert(sa[12] == sb[12]);
    assert(sa[13] == sb[13]);
    assert(sa[14] == sb[14]);
    assert(sa[15] == sb[15]);
    assert(a == b) by (bit_vector)
        requires
            ((a >> 120u128) & 0xff) as u8 == ((b >> 120u128) & 0xff) as u8,
            ((a >> 112u128) & 0xff) as u8 == ((b >> 112u128) & 0xff) as u8,
            ((a >> 104u128) & 0xff) as u8 == ((b >> 104u128) & 0xff) as u8,
            ((a >> 96u128) & 0xff) as u8 == ((b >> 96u128) & 0xff) as u8,
            ((a >> 88u128) & 0xff) as u8 == ((b >> 88u128) & 0xff) as u8,
            ((a >> 80u128) & 0xff) as u8 == ((b >> 80u128) & 0xff) as u8,
            ((a >> 72u128) & 0xff) as u8 == ((b >> 72u128) & 0xff) as u8,
            ((a >> 64u128) & 0xff) as u8 == ((b >> 64u128) & 0xff) as u8,
            ((a >> 56u128) & 0xff) as u8 == ((b >> 56u128) & 0xff) as u8,
            ((a >> 48u128) & 0xff) as u8 == ((b >> 48u128) & 0xff) as u8,
            ((a >> 40u128) & 0xff) as u8 == ((b >> 40u128) & 0xff) as u8,
            ((a >> 32u128) & 0xff) as u8 == ((b >> 32u128) & 0xff) as u8,
            ((a >> 24u128) & 0xff) as u8 == ((b >> 24u128) & 0xff) as u8,
            ((a >> 16u128) & 0xff) as u8 == ((b >> 16u128) & 0xff) as u8,
            ((a >> 8u128) & 0xff) as u8 == ((b >> 8u128) & 0xff) as u8,
            ((a >> 0u128) & 0xff) as u8 == ((b >> 0u128) & 0xff) as u8,
    ;
}

/// Two identities with the same value are the same identity.
pub proof fn lemma_leader_id_view_injective(a: LeaderId, b: LeaderId)
    requires
        a@ == b@,
    ensures
        a == b,
{
}

/// Calls `uuid::Uuid::now_v7`: a fresh version-7 UUID from the clock and the
/// random source. Claimed: the version digit is 7 and the variant bits are
/// those of RFC 9562, as `uuid`'s v7 encoder sets them. Nothing is said of the
/// timestamp or the random bits.
#[verifier::external_body]
fn uuid_now_v7() -> (res: u128)
    ensures
        (res >> 76u128) & 0xf == 7,
        (res >> 62u128) & 0x3 == 2,
{
    uuid::Uuid::now_v7().as_u128()
}

/// Calls `uuid::Uuid::from_slice` and reads the value back with `as_u128`.
/// Claimed, as the source shows: it succeeds exactly on sixteen bytes, and the
/// value's big-endian bytes are the input.
#[verifier::external_body]
fn uuid_from_slice(bytes: &[u8]) -> (res: Option<u128>)
    ensures
        res is Some <==> bytes@.len() == 16,
        res matches Some(v) ==> uuid_bytes(v) == bytes@,
{
    match uuid::Uuid::from_slice(bytes) {
        Ok(u) => Some(u.as_u128()),
        Err(_) => None,
    }
}

/// Calls `uuid::Uuid::from_u128` and `into_bytes`. Claimed, as the source
/// shows: the bytes are the value's big-endian bytes.
#[verifier::external_body]
fn uuid_into_bytes(v: u128) -> (res: [u8; 16])
    ensures
        res@ == uuid_bytes(v),
{
    uuid::Uuid::from_u128(v).into_bytes()
}

/// Calls `uuid::Uuid::from_u128` and its `Display` (`to_string`). Claimed, as
/// the source shows: the hyphenated lower-case form.
#[verifier::external_body]
fn uuid_hyphenated(v: u128) -> (res: String)
    ensures
        res@ == hyphenated_text(v),
{
    uuid::Uuid::from_u128(v).to_string()
}

/// Calls `uuid::Uuid::parse_str` and reads the value back with `as_u128`.
/// Claimed: the result is `uuid_parse_text` of the text (its grammar is left
/// unstated), and, as the crate documents, the hyphenated form that it prints
/// reads back as the same value.
#[verifier::external_body]
fn uuid_parse_str(text: &str) -> (res: Option<u128>)
    ensures
        res == uuid_parse_text(text@),
        forall|v: u128| #[trigger] hyphenated_text(v) == text@ ==> res == Some(v),
{
    match uuid::Uuid::parse_str(text) {
        Ok(u) => Some(u.as_u128()),
        Err(_) => None,
    }
}

impl LeaderId {
    /// A fresh identity: a version-7 UUID.
    pub(crate) fn new() -> (res: Self)
        ensures
            (res@ >> 76u128) & 0xf == 7,
            (res@ >> 62u128) & 0x3 == 2,
    {
        LeaderId(uuid_now_v7())
    }

    /// The sixteen bytes of the identity, most significant first: what the
    /// NATS store holds under the key.
    pub fn as_bytes(&self) -> (res: [u8; 16])
        ensures
            res@ == uuid_bytes(self@),
    {
        uuid_into_bytes(self.0)
    }

    /// The hyphenated text of the identity: what the Postgres store holds.
    pub fn hyphenated(&self) -> (res: String)
        ensures
            res@ == hyphenated_text(self@),
    {
        uuid_hyphenated(self.0)
    }

    /// Reads an identity from stored bytes: some exactly when there are
    /// sixteen, and then the identity whose bytes they are.
    pub fn from_bytes(bytes: &[u8]) -> (res: Option<LeaderId>)
        ensures
            res is Some <==> bytes@.len() == 16,
            res matches Some(id) ==> uuid_bytes(id@) == bytes@,
            forall|id: LeaderId| #[trigger] uuid_bytes(id@) == bytes@ ==> res == Some(id),
    {
        let r = uuid_from_slice(bytes);
        proof {
            assert forall|id: LeaderId| #[trigger] uuid_bytes(id@) == bytes@ implies r == Some(
                id.0,
            ) by {
                lemma_uuid_bytes_injective(r->0, id.0);
            }
        }
        match r {
            Some(v) => Some(LeaderId(v)),
            None => None,
        }
    }

    /// Reads an identity from stored text with `uuid`'s parser.
    pub fn parse(text: &str) -> (res: Option<LeaderId>)
        ensures
            res is Some <==> uuid_parse_text(text@) is Some,
            res matches Some(id) ==> uuid_parse_text(text@) == Some(id@),
            forall|id: LeaderId| #[trigger] hyphenated_text(id@) == text@ ==> res == Some(id),
    {
        let r = uuid_parse_str(text);
        proof {
            assert forall|id: LeaderId| #[trigger] hyphenated_text(id@) == text@ implies r == Some(
                id.0,
            ) by {
                assert(hyphenated_text(id.0) == text@);
            }
        }
        match r {
            Some(v) => Some(LeaderId(v)),
            None => None,
        }
    }
}

impl From<u128> for LeaderId {
    fn from(value: u128) -> (res: Self)
        ensures
            res@ == value,
    {
        LeaderId(value)
    }
}

impl FromSpecImpl<u128> for LeaderId {
    open spec fn obeys_from_spec() -> bool {
        true
    }

    closed spec fn from_spec(v: u128) -> LeaderId {
        LeaderId(v)
    }
}

impl From<LeaderId> for u128 {
    fn from(value: LeaderId) -> (res: Self)
        ensures
            res == value@,
    {
        value.0
    }
}

impl FromSpecImpl<LeaderId> for u128 {
    open spec fn obeys_from_spec() -> bool {
        true
    }

    closed spec fn from_spec(v: LeaderId) -> u128 {
        v.0
    }
}

impl From<&LeaderId> for u128 {
    fn from(value: &LeaderId) -> (res: Self)
        ensures
            res == value@,
    {
        value.0
    }
}

impl FromSpecImpl<&LeaderId> for u128 {
    open spec fn obeys_from_spec() -> bool {
        true
    }

    closed spec fn from_spec(v: &LeaderId) -> u128 {
        v.0
    }
}

} // verus!
