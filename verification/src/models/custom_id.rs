//! The correlation identifier that ties a submitted form to the command that
//! opened it: a name followed by ordered text fields, written as one short
//! string with commas between the parts.
//!
//! No escaping is performed. A name or a field that holds a comma does not
//! survive a round trip, and neither does an empty name without fields, which
//! is written as the empty text and not read back. The limit on the length
//! counts the bytes of the parts and not the commas between them.

use vstd::prelude::*;
use vstd::string::StringExecFns;
use crate::text::{byte_len, decimal, join, join_from, push_decimal, saturated};
use crate::text::{saturating_sum, split, split_text, total_byte_len, total_len, views};

verus! {

/// The separator between the parts of a written identifier.
pub const SEPARATOR: char = ',';

/// The largest number of bytes that the parts of an identifier may take together.
pub const MAX_LENGTH: usize = 100;

/// Why an identifier could not be read or written.
#[derive(Debug, Clone, Copy, PartialEq, Eq, Structural)]
pub enum CustomIdError {
    /// The text holds no name.
    Parse,
    /// The parts take this many bytes, more than the limit.
    TooLong(usize),
}

impl CustomIdError {
    /// The error in words.
    pub open spec fn message_text(self) -> Seq<char> {
        match self {
            CustomIdError::Parse => "failed to parse custom id"@,
            CustomIdError::TooLong(length) => "custom id length "@ + decimal(length as nat)
                + " exceeds maximum of 100"@,
        }
    }

    /// The error in words.
    pub fn message(&self) -> (text: String)
        ensures
            text@ == self.message_text(),
    {
        match self {
            CustomIdError::Parse => "failed to parse custom id".to_owned(),
            CustomIdError::TooLong(length) => {
                let mut text = "custom id length ".to_owned();
                push_decimal(&mut text, *length as u64);
                text.append(" exceeds maximum of 100");
                text
            },
        }
    }
}

/// A name and its ordered fields.
#[derive(Debug, Clone, PartialEq, Eq)]
pub struct CustomId {
    pub id: String,
    pub data: Vec<String>,
}

/// What an identifier holds, as mathematical values.
pub ghost struct CustomIdView {
    pub id: Seq<char>,
    pub data: Seq<Seq<char>>,
}

impl View for CustomId {
    type V = CustomIdView;

    open spec fn view(&self) -> CustomIdView {
        CustomIdView { id: self.id@, data: views(self.data@) }
    }
}

/// What reading `raw` gives: the pieces between commas, every one of them;
/// the first is the name, the others are the fields in order. The empty text
/// has no name and is refused.
pub open spec fn decoded(raw: Seq<char>) -> Result<CustomIdView, CustomIdError> {
    if raw.len() == 0 {
        Err(CustomIdError::Parse)
    } else {
        Ok(
            CustomIdView {
                id: split(raw, SEPARATOR)[0],
                data: split(raw, SEPARATOR).skip(1),
            },
        )
    }
}

/// The bytes that the name and the fields take together, commas not counted.
pub open spec fn payload_len(v: CustomIdView) -> nat {
    byte_len(v.id) + total_byte_len(v.data)
}

/// What writing an identifier gives: its parts with commas between them, or
/// the length of the parts when that is over the limit.
pub open spec fn encoded(v: CustomIdView) -> Result<Seq<char>, CustomIdError> {
    if payload_len(v) > MAX_LENGTH {
        Err(CustomIdError::TooLong(saturated(payload_len(v))))
    } else {
        Ok(join(seq![v.id] + v.data, seq![SEPARATOR]))
    }
}

impl CustomId {
    /// An identifier with the given name and no fields.
    pub fn new(id: &str) -> (made: CustomId)
        ensures
            made@ == (CustomIdView { id: id@, data: Seq::<Seq<char>>::empty() }),
    {
        let made = CustomId { id: id.to_owned(), data: Vec::new() };
        assert(views(made.data@) =~= Seq::<Seq<char>>::empty());
        made
    }

    /// The same name with `data` as its fields.
    pub fn data(self, data: Vec<String>) -> (made: CustomId)
        ensures
            made@ == (CustomIdView { id: self@.id, data: views(data@) }),
    {
        CustomId { id: self.id, data }
    }

    /// The same identifier with `field` after its other fields.
    pub fn add_data(self, field: String) -> (made: CustomId)
        ensures
            made@ == (CustomIdView { id: self@.id, data: self@.data.push(field@) }),
    {
        let mut data = self.data;
        data.push(field);
        assert(views(data@) =~= views(self.data@).push(field@));
        CustomId { id: self.id, data }
    }

    /// Reads a written identifier.
    pub fn decode(raw: &str) -> (read: Result<CustomId, CustomIdError>)
        ensures
            match read {
                Ok(custom_id) => decoded(raw@) == Ok::<CustomIdView, CustomIdError>(custom_id@),
                Err(error) => decoded(raw@) == Err::<CustomIdView, CustomIdError>(error),
            },
    {
        if raw.is_empty() {
            return Err(CustomIdError::Parse);
        }
        let mut pieces = split_text(raw, SEPARATOR);
        proof {
            crate::text::lemma_split_nonempty(raw@, SEPARATOR);
        }
        let ghost parts = pieces@;
        let id = pieces.remove(0);
        assert(views(pieces@) =~= views(parts).skip(1));
        Ok(CustomId { id, data: pieces })
    }

    /// Writes the identifier, unless its parts are over the limit.
    pub fn try_to_string(&self) -> (written: Result<String, CustomIdError>)
        ensures
            match written {
                Ok(text) => encoded(self@) == Ok::<Seq<char>, CustomIdError>(text@),
                Err(error) => encoded(self@) == Err::<Seq<char>, CustomIdError>(error),
            },
    {
        let parts_len = saturating_sum(total_len(&self.data), self.id.as_str().as_bytes().len());
        if parts_len > MAX_LENGTH {
            Err(CustomIdError::TooLong(parts_len))
        } else {
            proof {
                reveal_strlit(",");
                assert(","@ =~= seq![SEPARATOR]);
            }
            Ok(join_from(self.id.as_str(), &self.data, ","))
        }
    }
}

/// Writing succeeds exactly when the parts take at most the limit, the commas
/// between them not counted; otherwise the error carries their length.
pub proof fn lemma_encode_limit(v: CustomIdView)
    ensures
        payload_len(v) <= MAX_LENGTH <==> encoded(v) is Ok,
        payload_len(v) > MAX_LENGTH ==> encoded(v) == Err::<Seq<char>, CustomIdError>(
            CustomIdError::TooLong(saturated(payload_len(v))),
        ),
        payload_len(v) == MAX_LENGTH ==> encoded(v) is Ok,
{
}

/// Reading what was written gives the identifier back, empty fields
/// included, provided that no part holds a comma and that the parts are within
/// the limit. The one identifier left out is the empty name without fields.
pub proof fn lemma_decode_encode(v: CustomIdView)
    requires
        crate::text::separator_free(seq![v.id] + v.data, SEPARATOR),
        payload_len(v) <= MAX_LENGTH,
        !(v.id.len() == 0 && v.data.len() == 0),
    ensures
        encoded(v) is Ok,
        decoded(encoded(v)->Ok_0) == Ok::<CustomIdView, CustomIdError>(v),
{
    let parts = seq![v.id] + v.data;
    let raw = join(parts, seq![SEPARATOR]);
    crate::text::lemma_split_join(parts, SEPARATOR);
    assert(raw.len() > 0) by {
        if v.data.len() == 0 {
            assert(parts =~= seq![v.id]);
        } else {
            assert(raw == join(parts.drop_last(), seq![SEPARATOR]) + seq![SEPARATOR]
                + parts.last());
        }
    }
    assert(parts[0] == v.id);
    assert(parts.skip(1) =~= v.data);
}

/// Writing what was read gives the text back, provided that the parts read
/// are within the limit.
pub proof fn lemma_encode_decode(raw: Seq<char>)
    requires
        decoded(raw) is Ok,
        payload_len(decoded(raw)->Ok_0) <= MAX_LENGTH,
    ensures
        encoded(decoded(raw)->Ok_0) == Ok::<Seq<char>, CustomIdError>(raw),
{
    let parts = split(raw, SEPARATOR);
    crate::text::lemma_split_nonempty(raw, SEPARATOR);
    crate::text::lemma_join_split(raw, SEPARATOR);
    let read = decoded(raw)->Ok_0;
    assert(seq![read.id] + read.data =~= parts);
}

/// Nothing is claimed of the conversion at the level of the trait: what it
/// gives is stated on `try_from` itself, over [`decoded`].
impl vstd::std_specs::convert::TryFromSpecImpl<String> for CustomId {
    open spec fn obeys_try_from_spec() -> bool {
        false
    }

    open spec fn try_from_spec(v: String) -> Result<CustomId, CustomIdError> {
        Err(CustomIdError::Parse)
    }
}

impl TryFrom<String> for CustomId {
    type Error = CustomIdError;

    /// Reads a written identifier.
    fn try_from(value: String) -> (read: Result<CustomId, CustomIdError>)
        ensures
            match read {
                Ok(custom_id) => decoded(value@) == Ok::<CustomIdView, CustomIdError>(custom_id@),
                Err(error) => decoded(value@) == Err::<CustomIdView, CustomIdError>(error),
            },
    {
        CustomId::decode(value.as_str())
    }
}

/// Nothing is claimed of the conversion at the level of the trait: what it
/// gives is stated on `try_from` itself, over [`encoded`].
impl vstd::std_specs::convert::TryFromSpecImpl<CustomId> for String {
    open spec fn obeys_try_from_spec() -> bool {
        false
    }

    open spec fn try_from_spec(v: CustomId) -> Result<String, CustomIdError> {
        Err(CustomIdError::Parse)
    }
}

impl TryFrom<CustomId> for String {
    type Error = CustomIdError;

    /// Writes the identifier, unless its parts are over the limit.
    fn try_from(value: CustomId) -> (written: Result<String, CustomIdError>)
        ensures
            match written {
                Ok(text) => encoded(value@) == Ok::<Seq<char>, CustomIdError>(text@),
                Err(error) => encoded(value@) == Err::<Seq<char>, CustomIdError>(error),
            },
    {
        value.try_to_string()
    }
}

} // verus!
