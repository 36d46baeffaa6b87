//! Session, preview and daemon-lifetime identifiers (UUID values).

use vstd::prelude::*;

verus! {

pub open spec fn hex_char(d: int) -> char {
    if d < 10 {
        crate::decimal::digit_char(d)
    } else if d == 10 {
        'a'
    } else if d == 11 {
        'b'
    } else if d == 12 {
        'c'
    } else if d == 13 {
        'd'
    } else if d == 14 {
        'e'
    } else {
        'f'
    }
}

/// The lowest `n` hexadecimal digits of `v`, most significant first.
pub open spec fn hex_digits(v: nat, n: nat) -> Seq<char>
    decreases n,
{
    if n == 0 {
        Seq::empty()
    } else {
        hex_digits(v / 16, (n - 1) as nat).push(hex_char((v % 16) as int))
    }
}

/// Hyphenated lower-case text of a 128-bit UUID value: 8-4-4-4-12 hex digits.
pub open spec fn uuid_text(v: nat) -> Seq<char> {
    let h = hex_digits(v, 32);
    h.subrange(0, 8) + seq!['-'] + h.subrange(8, 12) + seq!['-'] + h.subrange(12, 16) + seq!['-']
        + h.subrange(16, 20) + seq!['-'] + h.subrange(20, 32)
}

/// `16` to the power `n`: the values `n` hexadecimal digits can write.
pub open spec fn hex_span(n: nat) -> nat
    decreases n,
{
    if n == 0 {
        1
    } else {
        16 * hex_span((n - 1) as nat)
    }
}

proof fn lemma_hex_char_injective(a: int, b: int)
    requires
        0 <= a < 16,
        0 <= b < 16,
        hex_char(a) == hex_char(b),
    ensures
        a == b,
{
}

proof fn lemma_hex_digits_len(v: nat, n: nat)
    ensures
        hex_digits(v, n).len() == n,
    decreases n,
{
    if n > 0 {
        lemma_hex_digits_len(v / 16, (n - 1) as nat);
    }
}

/// Below `16^n`, the `n` hexadecimal digits of a value determine it.
proof fn lemma_hex_digits_injective(v: nat, w: nat, n: nat)
    requires
        v < hex_span(n),
        w < hex_span(n),
        hex_digits(v, n) == hex_digits(w, n),
    ensures
        v == w,
    decreases n,
{
    if n > 0 {
        let m = (n - 1) as nat;
        let span = hex_span(m);
        let dv = hex_digits(v, n);
        let dw = hex_digits(w, n);
        assert(dv.last() == hex_char((v % 16) as int));
        assert(dw.last() == hex_char((w % 16) as int));
        lemma_hex_char_injective((v % 16) as int, (w % 16) as int);
        assert(dv.drop_last() =~= hex_digits(v / 16, m));
        assert(dw.drop_last() =~= hex_digits(w / 16, m));
        assert(v / 16 < span && w / 16 < span) by (nonlinear_arith)
            requires
                v < 16 * span,
                w < 16 * span,
        ;
        lemma_hex_digits_injective(v / 16, w / 16, m);
        assert(v == 16 * (v / 16) + v % 16);
        assert(w == 16 * (w / 16) + w % 16);
    }
}

/// Distinct UUID values have distinct texts.
pub proof fn lemma_uuid_text_injective(v: u128, w: u128)
    requires
        uuid_text(v as nat) == uuid_text(w as nat),
    ensures
        v == w,
{
    assert(hex_span(32) == 0x1_0000_0000_0000_0000_0000_0000_0000_0000nat) by {
        reveal_with_fuel(hex_span, 33);
    }
    let hv = hex_digits(v as nat, 32);
    let hw = hex_digits(w as nat, 32);
    lemma_hex_digits_len(v as nat, 32);
    lemma_hex_digits_len(w as nat, 32);
    let u = uuid_text(v as nat);
    assert(hv =~= u.subrange(0, 8) + u.subrange(9, 13) + u.subrange(14, 18) + u.subrange(19, 23)
        + u.subrange(24, 36));
    assert(hw =~= u.subrange(0, 8) + u.subrange(9, 13) + u.subrange(14, 18) + u.subrange(19, 23)
        + u.subrange(24, 36));
    lemma_hex_digits_injective(v as nat, w as nat, 32);
}

/// A UUID's text has its 36 characters.
pub proof fn lemma_uuid_text_len(v: nat)
    ensures
        uuid_text(v).len() == 36,
{
    lemma_hex_digits_len(v, 32);
}

/// The value `uuid::Uuid::parse_str` reads from a text, if it accepts it.
pub uninterp spec fn uuid_parse(s: Seq<char>) -> Option<u128>;

/// `uuid::Uuid::from_u128(value).to_string()`: the `Display` of a UUID is
/// its hyphenated lower-case form, the bytes taken most significant first.
#[verifier::external_body]
fn uuid_hyphenated(value: u128) -> (s: String)
    ensures
        s@ == uuid_text(value as nat),
{
    uuid::Uuid::from_u128(value).to_string()
}

/// `uuid::Uuid::parse_str(text)` and `as_u128`. Which texts it accepts and what
/// it reads from them is left to the crate and named; of the hyphenated
/// lower-case form it reads back the value written (bytes most significant first).
#[verifier::external_body]
fn uuid_from_text(text: &str) -> (r: Option<u128>)
    ensures
        r == uuid_parse(text@),
        forall|v: u128| text@ == uuid_text(v as nat) ==> r == Some(v),
{
    match uuid::Uuid::parse_str(text) {
        Ok(value) => Some(value.as_u128()),
        Err(_) => None,
    }
}

/// A version-7 UUID value of the RFC 9562 variant: version nibble `7` in
/// bits 76 to 79, variant bits `10` in bits 62 and 63.
pub open spec fn is_v7(v: u128) -> bool {
    (v >> 76u128) & 0xfu128 == 7u128 && (v >> 62u128) & 3u128 == 2u128
}

/// The version-7 value with the given fields: the low 48 bits of `millis`,
/// the version nibble `7`, twelve bits from `b0` and `b1`, the variant bits
/// `10`, then six bits of `b2` and the bytes `b3` to `b9`.
pub open spec fn v7_fields(
    millis: u64,
    b0: u8,
    b1: u8,
    b2: u8,
    b3: u8,
    b4: u8,
    b5: u8,
    b6: u8,
    b7: u8,
    b8: u8,
    b9: u8,
) -> u128 {
    ((millis as u128 & 0xffff_ffff_ffffu128) << 80u128) | (0x7000u128 << 64u128) | (((b0
        & 0x0fu8) as u128) << 72u128) | ((b1 as u128) << 64u128) | ((((b2 & 0x3fu8) | 0x80u8)
        as u128) << 56u128) | ((b3 as u128) << 48u128) | ((b4 as u128) << 40u128) | ((b5
        as u128) << 32u128) | ((b6 as u128) << 24u128) | ((b7 as u128) << 16u128) | ((b8
        as u128) << 8u128) | (b9 as u128)
}

/// The version-7 value built from a millisecond time and ten random bytes.
pub open spec fn v7_value(millis: u64, random: Seq<u8>) -> u128
    recommends
        random.len() == 10,
{
    v7_fields(
        millis,
        random[0],
        random[1],
        random[2],
        random[3],
        random[4],
        random[5],
        random[6],
        random[7],
        random[8],
        random[9],
    )
}

/// `uuid::Builder::from_unix_timestamp_millis(millis, &random).into_uuid().as_u128()`:
/// the time in the top 48 bits, then the version, the random bytes and the
/// variant laid out as `v7_fields` says, bytes most significant first.
#[verifier::external_body]
fn uuid_v7_value(millis: u64, random: [u8; 10]) -> (r: u128)
    ensures
        r == v7_value(millis, random@),
{
    uuid::Builder::from_unix_timestamp_millis(millis, &random).into_uuid().as_u128()
}

proof fn lemma_v7_fields(
    millis: u64,
    b0: u8,
    b1: u8,
    b2: u8,
    b3: u8,
    b4: u8,
    b5: u8,
    b6: u8,
    b7: u8,
    b8: u8,
    b9: u8,
)
    by (bit_vector)
    ensures
        is_v7(v7_fields(millis, b0, b1, b2, b3, b4, b5, b6, b7, b8, b9)),
        v7_fields(millis, b0, b1, b2, b3, b4, b5, b6, b7, b8, b9) >> 80u128 == millis as u128
            & 0xffff_ffff_ffffu128,
{
}

/// The version-7 UUID value for `millis` and `random`; it carries the
/// version and variant fields and keeps the time in its top 48 bits.
pub fn uuid_v7(millis: u64, random: [u8; 10]) -> (r: u128)
    ensures
        r == v7_value(millis, random@),
        is_v7(r),
        r >> 80u128 == millis as u128 & 0xffff_ffff_ffffu128,
{
    let r = uuid_v7_value(millis, random);
    proof {
        let s = random@;
        lemma_v7_fields(millis, s[0], s[1], s[2], s[3], s[4], s[5], s[6], s[7], s[8], s[9]);
    }
    r
}

/// A version-7 value for now: the system clock's milliseconds and `random`.
/// The time is the clock's, so the value is stated up to it.
fn fresh_uuid_v7(random: [u8; 10]) -> (r: u128)
    ensures
        is_v7(r),
        exists|millis: u64| r == v7_value(millis, random@),
{
    let millis = crate::clock::unix_now_ms();
    uuid_v7(millis, random)
}

/// Stable identifier for a recording attempt. Version-7 UUIDs keep listings sortable.
#[derive(Clone, Copy, Debug, PartialEq, Eq, Hash, Structural)]
pub struct SessionId {
    value: u128,
}

/// The text `FromStr` refuses.
#[derive(Clone, Copy, Debug, PartialEq, Eq)]
pub struct IdParseError;

impl SessionId {
    pub closed spec fn value(self) -> u128 {
        self.value
    }

    /// A fresh version-7 session id for now, its random bits from `random`.
    pub fn new(random: [u8; 10]) -> (id: Self)
        ensures
            is_v7(id.value()),
            exists|millis: u64| id.value() == v7_value(millis, random@),
    {
        SessionId { value: fresh_uuid_v7(random) }
    }

    pub fn from_u128(value: u128) -> (id: Self)
        ensures
            id.value() == value,
    {
        SessionId { value }
    }

    pub fn as_u128(self) -> (v: u128)
        ensures
            v == self.value(),
    {
        self.value
    }

    /// Hyphenated lower-case text.
    pub fn to_string(&self) -> (s: String)
        ensures
            s@ == uuid_text(self.value() as nat),
    {
        uuid_hyphenated(self.value)
    }

    /// Reads a session id; the text `to_string` gives reads back as the same id.
    pub fn parse(text: &str) -> (r: Option<Self>)
        ensures
            match uuid_parse(text@) {
                Some(v) => r matches Some(id) && id.value() == v,
                None => r is None,
            },
            forall|v: u128| text@ == uuid_text(v as nat) ==> (r matches Some(id) && id.value() == v),
    {
        match uuid_from_text(text) {
            Some(value) => Some(SessionId { value }),
            None => None,
        }
    }
}

/// A session id is its value.
pub proof fn lemma_session_id_by_value(a: SessionId, b: SessionId)
    requires
        a.value() == b.value(),
    ensures
        a == b,
{
}

impl std::str::FromStr for SessionId {
    type Err = IdParseError;

    /// `SessionId::parse`, with `IdParseError` for a text it refuses.
    fn from_str(text: &str) -> (r: Result<Self, IdParseError>)
        ensures
            match uuid_parse(text@) {
                Some(v) => r matches Ok(id) && id.value() == v,
                None => r == Err::<Self, IdParseError>(IdParseError),
            },
            forall|v: u128| text@ == uuid_text(v as nat) ==> (r matches Ok(id) && id.value() == v),
    {
        match SessionId::parse(text) {
            Some(id) => Ok(id),
            None => Err(IdParseError),
        }
    }
}

/// Advisory identifier returned by a plan. It is not a reserved session.
#[derive(Clone, Copy, Debug, PartialEq, Eq, Hash, Structural)]
pub struct PreviewId {
    value: u128,
}

impl PreviewId {
    pub closed spec fn value(self) -> u128 {
        self.value
    }

    /// A fresh version-7 preview id for now, its random bits from `random`.
    pub fn new(random: [u8; 10]) -> (id: Self)
        ensures
            is_v7(id.value()),
            exists|millis: u64| id.value() == v7_value(millis, random@),
    {
        PreviewId { value: fresh_uuid_v7(random) }
    }

    pub fn from_u128(value: u128) -> (id: Self)
        ensures
            id.value() == value,
    {
        PreviewId { value }
    }

    pub fn to_string(&self) -> (s: String)
        ensures
            s@ == uuid_text(self.value() as nat),
    {
        uuid_hyphenated(self.value)
    }
}

/// One daemon process lifetime; event sequences compare only within it.
#[derive(Clone, Copy, Debug, PartialEq, Eq, Hash, Structural)]
pub struct DaemonLifetimeId {
    value: u128,
}

impl DaemonLifetimeId {
    pub closed spec fn value(self) -> u128 {
        self.value
    }

    /// A fresh version-7 lifetime id for now, its random bits from `random`.
    pub fn new(random: [u8; 10]) -> (id: Self)
        ensures
            is_v7(id.value()),
            exists|millis: u64| id.value() == v7_value(millis, random@),
    {
        DaemonLifetimeId { value: fresh_uuid_v7(random) }
    }

    pub fn from_u128(value: u128) -> (id: Self)
        ensures
            id.value() == value,
    {
        DaemonLifetimeId { value }
    }

    pub fn to_string(&self) -> (s: String)
        ensures
            s@ == uuid_text(self.value() as nat),
    {
        uuid_hyphenated(self.value)
    }
}

/// A fresh time-ordered identifier for one request, its random bits from `random`.
pub fn fresh_request_id(random: [u8; 10]) -> (r: u128)
    ensures
        is_v7(r),
        exists|millis: u64| r == v7_value(millis, random@),
{
    fresh_uuid_v7(random)
}

} // verus!
