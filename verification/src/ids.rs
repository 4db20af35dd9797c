use vstd::prelude::*;

verus! {

/// The character of a hexadecimal digit (`0..=15`), lower case.
pub open spec fn hex_digit(d: int) -> char {
    if d < 10 {
        (48 + d) as char
    } else {
        (87 + d) as char
    }
}

/// The `width` lowest hexadecimal digits of `v`, most significant first.
pub open spec fn hex_digits(v: nat, width: nat) -> Seq<char>
    decreases width,
{
    if width == 0 {
        Seq::empty()
    } else {
        hex_digits(v / 16, (width - 1) as nat).push(hex_digit((v % 16) as int))
    }
}

/// The hyphenated lower-case text of a UUID whose 128 bits, read big-endian,
/// are `v`: groups of 8, 4, 4, 4 and 12 hexadecimal digits joined by `-`.
pub open spec fn hyphenated_uuid(v: u128) -> Seq<char> {
    let d = hex_digits(v as nat, 32);
    d.subrange(0, 8) + seq!['-'] + d.subrange(8, 12) + seq!['-'] + d.subrange(12, 16)
        + seq!['-'] + d.subrange(16, 20) + seq!['-'] + d.subrange(20, 32)
}

/// The decimal digits of `n`, most significant first, without leading zeros.
pub open spec fn decimal_digits(n: nat) -> Seq<char>
    decreases n,
{
    if n < 10 {
        seq![(48 + n) as char]
    } else {
        decimal_digits(n / 10).push((48 + (n % 10)) as char)
    }
}

/// The decimal text of an integer, with a leading `-` when it is negative.
pub open spec fn decimal_text(n: int) -> Seq<char> {
    if n < 0 {
        seq!['-'] + decimal_digits((-n) as nat)
    } else {
        decimal_digits(n as nat)
    }
}

/// The identifier of a Codex conversation thread: a UUID, held as its 128
/// bits read big-endian.
#[derive(Clone, Copy, Debug, PartialEq, Eq, Structural, Hash)]
pub struct ThreadId {
    pub uuid: u128,
}

/// `uuid::Uuid::now_v7`, read back as its 128 bits. The crate documents the
/// result as a version 7 UUID, so its version nibble (bits 76..80) is 7; the
/// other bits come from the clock and a random source and are not stated.
/// The crate panics when the system clock reads before 1970 or the operating
/// system's random source fails; no argument can rule that out.
#[verifier::external_body]
fn fresh_v7_uuid() -> (v: u128)
    ensures
        (v >> 76u128) & 0xfu128 == 7,
{
    uuid::Uuid::now_v7().as_u128()
}

/// `Display` of `uuid::Uuid::from_u128(v)`: the hyphenated lower-case form of
/// the UUID whose bits, read big-endian, are `v`.
#[verifier::external_body]
fn uuid_text(v: u128) -> (text: String)
    ensures
        text@ == hyphenated_uuid(v),
{
    uuid::Uuid::from_u128(v).to_string()
}

impl ThreadId {
    /// A new thread identifier: a time-ordered (version 7) UUID.
    pub fn new() -> (id: ThreadId)
        ensures
            (id.uuid >> 76u128) & 0xfu128 == 7,
    {
        ThreadId { uuid: fresh_v7_uuid() }
    }

    pub fn from_u128(uuid: u128) -> (id: ThreadId)
        ensures
            id.uuid == uuid,
    {
        ThreadId { uuid }
    }

    pub fn as_u128(&self) -> (v: u128)
        ensures
            v == self.uuid,
    {
        self.uuid
    }

    /// The text form of the identifier, as it appears in messages and in the
    /// `threadId` of structured content.
    pub open spec fn spec_text(self) -> Seq<char> {
        hyphenated_uuid(self.uuid)
    }

    pub fn to_text(&self) -> (text: String)
        ensures
            text@ == self.spec_text(),
    {
        uuid_text(self.uuid)
    }
}

/// The identifier of an MCP request: a number or a string.
#[derive(Debug, PartialEq, Eq, Hash)]
pub enum RequestId {
    Number(i64),
    Text(String),
}

/// The mathematical value of a request identifier.
pub enum RequestIdView {
    Number(i64),
    Text(Seq<char>),
}

impl View for RequestId {
    type V = RequestIdView;

    open spec fn view(&self) -> RequestIdView {
        match self {
            RequestId::Number(n) => RequestIdView::Number(*n),
            RequestId::Text(s) => RequestIdView::Text(s@),
        }
    }
}

impl RequestIdView {
    /// The text of a request identifier: the decimal form of a number, or the
    /// string itself.
    pub open spec fn text(self) -> Seq<char> {
        match self {
            RequestIdView::Number(n) => decimal_text(n as int),
            RequestIdView::Text(s) => s,
        }
    }
}

/// `Display` of `rmcp::model::RequestId` (`NumberOrString`), on the value that
/// holds the same number or string: a number prints in decimal, a string as
/// itself.
#[verifier::external_body]
fn wire_request_id_text(id: &RequestId) -> (text: String)
    ensures
        text@ == id@.text(),
{
    let wire = match id {
        RequestId::Number(n) => rmcp::model::NumberOrString::Number(*n),
        RequestId::Text(s) => rmcp::model::NumberOrString::String(s.as_str().into()),
    };
    wire.to_string()
}

impl RequestId {
    /// The text of the identifier, as a submission id and in messages.
    pub fn to_text(&self) -> (text: String)
        ensures
            text@ == self@.text(),
    {
        wire_request_id_text(self)
    }

    /// Whether two identifiers name the same request.
    pub fn same_as(&self, other: &RequestId) -> (same: bool)
        ensures
            same == (self@ == other@),
    {
        match (self, other) {
            (RequestId::Number(a), RequestId::Number(b)) => *a == *b,
            (RequestId::Text(a), RequestId::Text(b)) => *a == *b,
            _ => false,
        }
    }

    pub fn duplicate(&self) -> (copy: RequestId)
        ensures
            copy == *self,
    {
        match self {
            RequestId::Number(n) => RequestId::Number(*n),
            RequestId::Text(s) => RequestId::Text(s.clone()),
        }
    }
}

} // verus!
