use crate::text::{concat, str_eq};
use std::marker::PhantomData;
use vstd::prelude::*;
use vstd::std_specs::cmp::PartialEqSpecImpl;
use vstd::string::StrSliceExecFns;

verus! {

/// Gives a record type the tag that prefixes the text form of its identifiers.
pub trait TypedIdMarker {
    /// The tag as a sequence of characters.
    spec fn spec_tag() -> Seq<char>;

    fn tag() -> (t: &'static str)
        ensures
            t@ == Self::spec_tag(),
    ;
}

/// A 128-bit identifier that belongs to records of type `T`.
#[derive(Debug)]
pub struct TypedId<T: TypedIdMarker> {
    value: u128,
    marker: PhantomData<T>,
}

impl<T: TypedIdMarker> Copy for TypedId<T> {}

impl<T: TypedIdMarker> Clone for TypedId<T> {
    fn clone(&self) -> (r: TypedId<T>)
        ensures
            r == *self,
    {
        *self
    }
}

impl<T: TypedIdMarker> PartialEq for TypedId<T> {
    fn eq(&self, other: &TypedId<T>) -> (r: bool) {
        self.value == other.value
    }
}

impl<T: TypedIdMarker> Eq for TypedId<T> {}

impl<T: TypedIdMarker> PartialEqSpecImpl for TypedId<T> {
    open spec fn obeys_eq_spec() -> bool {
        true
    }

    open spec fn eq_spec(&self, other: &TypedId<T>) -> bool {
        *self == *other
    }
}

/// Why a text is no identifier of a record type.
#[derive(Copy, Clone, Debug, PartialEq, Eq, Structural)]
pub enum TypedIdParseError {
    InvalidFormat,
    InvalidTag,
    InvalidUuid,
}

impl<T: TypedIdMarker> TypedId<T> {
    /// The identifier's number.
    pub closed spec fn as_int(&self) -> int {
        self.value as int
    }

    /// Two identifiers of one record type with the same number are the same.
    pub broadcast proof fn lemma_same_number(a: TypedId<T>, b: TypedId<T>)
        ensures
            (#[trigger] a.as_int() == #[trigger] b.as_int()) <==> a == b,
    {
    }

    /// The identifier with the given number.
    pub fn from_u128(value: u128) -> (r: TypedId<T>)
        ensures
            r.as_int() == value,
    {
        TypedId { value, marker: PhantomData }
    }

    /// The identifier's number.
    pub fn as_u128(&self) -> (r: u128)
        ensures
            r == self.as_int(),
    {
        self.value
    }
}

/// The bits of an identifier's number that mark it as a random (version 4) UUID.
pub const UUID_MARK_BITS: u128 = 0x0000_0000_0000_F000_C000_0000_0000_0000u128;

/// What those bits hold in every random UUID.
pub const UUID_MARK_V4: u128 = 0x0000_0000_0000_4000_8000_0000_0000_0000u128;

/// The number that `uuid::Uuid::parse_str` reads from a text, if it accepts the text.
pub uninterp spec fn uuid_parse(text: Seq<char>) -> Option<u128>;

/// The text that the `UpperHex` format of `uuid::Uuid` gives for a number.
pub uninterp spec fn uuid_upper_hex(value: u128) -> Seq<char>;

/// `uuid::Uuid::new_v4`, as a number. The value is random; the crate sets the
/// version and variant bits of every value it hands out, and only that is claimed.
#[verifier::external_body]
fn random_uuid() -> (value: u128)
    ensures
        value & UUID_MARK_BITS == UUID_MARK_V4,
{
    uuid::Uuid::new_v4().as_u128()
}

/// `uuid::Uuid::parse_str`, with the parsed UUID as a number and the crate's
/// error as `None`. Which texts are accepted is left to the crate.
#[verifier::external_body]
fn parse_uuid(text: &str) -> (value: Option<u128>)
    ensures
        value == uuid_parse(text@),
{
    match uuid::Uuid::parse_str(text) {
        Ok(uuid) => Some(uuid.as_u128()),
        Err(_) => None,
    }
}

/// The `{:X}` format of `uuid::Uuid::from_u128(value)`: the UUID in groups of
/// upper-case hexadecimal digits between hyphens. The text is left to the crate.
#[verifier::external_body]
fn format_uuid(value: u128) -> (text: String)
    ensures
        text@ == uuid_upper_hex(value),
{
    format!("{:X}", uuid::Uuid::from_u128(value))
}

/// Whether `i` is the place of the first hyphen in `text`.
pub open spec fn is_first_hyphen(text: Seq<char>, i: int) -> bool {
    &&& 0 <= i < text.len()
    &&& text[i] == '-'
    &&& forall|j: int| 0 <= j < i ==> text[j] != '-'
}

/// What the text of an identifier with the given tag parses to, when its first
/// hyphen is at `i`: the tag stands before the hyphen and a UUID after it.
pub open spec fn parse_at_hyphen(tag: Seq<char>, text: Seq<char>, i: int) -> Result<
    u128,
    TypedIdParseError,
> {
    if text.subrange(0, i) != tag {
        Err(TypedIdParseError::InvalidTag)
    } else {
        match uuid_parse(text.subrange(i + 1, text.len() as int)) {
            Some(value) => Ok(value),
            None => Err(TypedIdParseError::InvalidUuid),
        }
    }
}

/// The place of the first hyphen in `text`, if it holds one.
fn find_hyphen(text: &str) -> (place: Option<usize>)
    ensures
        match place {
            Some(i) => is_first_hyphen(text@, i as int),
            None => forall|j: int| 0 <= j < text@.len() ==> text@[j] != '-',
        },
{
    let len: usize = text.unicode_len();
    let mut i: usize = 0;
    while i < len
        invariant
            len == text@.len(),
            i <= len,
            forall|j: int| 0 <= j < i ==> text@[j] != '-',
        decreases len - i,
    {
        if text.get_char(i) == '-' {
            return Some(i);
        }
        i += 1;
    }
    None
}

impl<T: TypedIdMarker> TypedId<T> {
    /// A fresh random identifier.
    pub fn new() -> (r: TypedId<T>)
        ensures
            r.as_int() as u128 & UUID_MARK_BITS == UUID_MARK_V4,
    {
        TypedId { value: random_uuid(), marker: PhantomData }
    }

    /// The tag, a hyphen and the identifier's number as an upper-case UUID.
    pub fn to_string(&self) -> (text: String)
        ensures
            text@ == T::spec_tag() + seq!['-'] + uuid_upper_hex(self.as_int() as u128),
    {
        let hex = format_uuid(self.value);
        proof {
            reveal_strlit("-");
            assert("-"@ =~= seq!['-']);
        }
        let head = concat(T::tag(), "-");
        concat(head.as_str(), hex.as_str())
    }

    /// Reads an identifier from its text form. A text without a hyphen has an
    /// invalid format; the part before the first hyphen must be the tag of `T`,
    /// and the part after it a UUID.
    pub fn from_str(text: &str) -> (r: Result<TypedId<T>, TypedIdParseError>)
        ensures
            (forall|j: int| 0 <= j < text@.len() ==> text@[j] != '-') ==> r == Err::<
                TypedId<T>,
                TypedIdParseError,
            >(TypedIdParseError::InvalidFormat),
            forall|i: int| #[trigger]
                is_first_hyphen(text@, i) ==> match parse_at_hyphen(T::spec_tag(), text@, i) {
                    Ok(value) => r matches Ok(id) && id.as_int() == value,
                    Err(e) => r == Err::<TypedId<T>, TypedIdParseError>(e),
                },
    {
        let len: usize = text.unicode_len();
        let index = match find_hyphen(text) {
            Some(index) => index,
            None => {
                return Err(TypedIdParseError::InvalidFormat);
            },
        };
        assert forall|i: int| #[trigger] is_first_hyphen(text@, i) implies i == index by {
            if i < index {
            } else if index < i {
            }
        }
        let tag = text.substring_char(0, index);
        if !str_eq(tag, T::tag()) {
            return Err(TypedIdParseError::InvalidTag);
        }
        match parse_uuid(text.substring_char(index + 1, len)) {
            Some(value) => Ok(TypedId { value, marker: PhantomData }),
            None => Err(TypedIdParseError::InvalidUuid),
        }
    }
}

} // verus!
