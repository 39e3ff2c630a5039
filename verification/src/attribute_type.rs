//! The type decoder: from the text of an attribute's type indicator and
//! constraint files to its typed description.

use vstd::prelude::*;
use crate::error::{Error, ReadError};
use crate::number::{
    decode_integer, decode_length, decoded_integer, decoded_length, integer_text,
    lemma_integer_text_round_trip, lemma_length_text_round_trip,
};
use crate::reader::text_of;
use crate::text::{
    is_single_line, joined_lines, lemma_lines_of_joined, lines_of, same_text, split_lines,
};

verus! {

/// The three shapes that an attribute's type can take.
#[derive(Clone, Copy, Debug, PartialEq, Eq, Structural)]
pub enum AttributeKind {
    Integer,
    String,
    Enumeration,
}

/// The declared type of an attribute, with the constraints on its value.
#[derive(Debug, PartialEq, Eq)]
pub enum AttributeType {
    /// A number between `min` and `max` that moves in steps of `step`.
    Integer { min: i64, max: i64, step: i64 },
    /// A text whose length lies between `min_length` and `max_length`.
    String { min_length: u64, max_length: u64 },
    /// One of `possible_values`, kept in the order in which the firmware
    /// lists them, repetitions included.
    Enumeration { possible_values: Vec<String> },
}

/// An attribute type as a mathematical value.
pub enum AttributeTypeView {
    Integer { min: i64, max: i64, step: i64 },
    String { min_length: u64, max_length: u64 },
    Enumeration { possible_values: Seq<Seq<char>> },
}

impl View for AttributeType {
    type V = AttributeTypeView;

    open spec fn view(&self) -> AttributeTypeView {
        match *self {
            AttributeType::Integer { min, max, step } => AttributeTypeView::Integer {
                min,
                max,
                step,
            },
            AttributeType::String { min_length, max_length } => AttributeTypeView::String {
                min_length,
                max_length,
            },
            AttributeType::Enumeration { possible_values } => AttributeTypeView::Enumeration {
                possible_values: possible_values.deep_view(),
            },
        }
    }
}

impl DeepView for AttributeType {
    type V = AttributeTypeView;

    open spec fn deep_view(&self) -> AttributeTypeView {
        self.view()
    }
}

impl Clone for AttributeType {
    fn clone(&self) -> (r: Self)
        ensures
            r@ == self@,
    {
        match self {
            AttributeType::Integer { min, max, step } => AttributeType::Integer {
                min: *min,
                max: *max,
                step: *step,
            },
            AttributeType::String { min_length, max_length } => AttributeType::String {
                min_length: *min_length,
                max_length: *max_length,
            },
            AttributeType::Enumeration { possible_values } => AttributeType::Enumeration {
                possible_values: possible_values.clone(),
            },
        }
    }
}

impl AttributeTypeView {
    /// Which of the three shapes this type has.
    pub open spec fn kind(self) -> AttributeKind {
        match self {
            AttributeTypeView::Integer { .. } => AttributeKind::Integer,
            AttributeTypeView::String { .. } => AttributeKind::String,
            AttributeTypeView::Enumeration { .. } => AttributeKind::Enumeration,
        }
    }
}

impl AttributeTypeView {
    /// Whether the bounds stand in order: the minimum is not above the
    /// maximum, and an integer moves in steps above zero. Firmware is
    /// expected to publish such bounds, and the decoder takes what it
    /// publishes: a decoded type may fail this.
    pub open spec fn bounds_in_order(self) -> bool {
        match self {
            AttributeTypeView::Integer { min, max, step } => min <= max && step > 0,
            AttributeTypeView::String { min_length, max_length } => min_length <= max_length,
            AttributeTypeView::Enumeration { .. } => true,
        }
    }
}

impl AttributeType {
    /// Checks that the bounds stand in order.
    pub fn has_bounds_in_order(&self) -> (r: bool)
        ensures
            r == self@.bounds_in_order(),
    {
        match self {
            AttributeType::Integer { min, max, step } => *min <= *max && *step > 0,
            AttributeType::String { min_length, max_length } => *min_length <= *max_length,
            AttributeType::Enumeration { .. } => true,
        }
    }

    /// Which of the three shapes this type has.
    pub fn kind(&self) -> (r: AttributeKind)
        ensures
            r == self@.kind(),
    {
        match self {
            AttributeType::Integer { .. } => AttributeKind::Integer,
            AttributeType::String { .. } => AttributeKind::String,
            AttributeType::Enumeration { .. } => AttributeKind::Enumeration,
        }
    }
}

/// The outcome of reading each constraint file of one attribute directory.
/// A file that could not be read, for whatever reason, counts as missing.
#[derive(Debug, PartialEq, Eq)]
pub struct ConstraintFiles {
    pub min_value: Result<String, ReadError>,
    pub max_value: Result<String, ReadError>,
    pub scalar_increment: Result<String, ReadError>,
    pub min_length: Result<String, ReadError>,
    pub max_length: Result<String, ReadError>,
    pub possible_values: Result<String, ReadError>,
}

/// The text of each constraint file that exists.
pub struct ConstraintTexts {
    pub min_value: Option<Seq<char>>,
    pub max_value: Option<Seq<char>>,
    pub scalar_increment: Option<Seq<char>>,
    pub min_length: Option<Seq<char>>,
    pub max_length: Option<Seq<char>>,
    pub possible_values: Option<Seq<char>>,
}

impl View for ConstraintFiles {
    type V = ConstraintTexts;

    open spec fn view(&self) -> ConstraintTexts {
        ConstraintTexts {
            min_value: text_of(self.min_value),
            max_value: text_of(self.max_value),
            scalar_increment: text_of(self.scalar_increment),
            min_length: text_of(self.min_length),
            max_length: text_of(self.max_length),
            possible_values: text_of(self.possible_values),
        }
    }
}

/// The shape that the text of a type indicator selects, if it is one of
/// the three known tokens. The tokens are matched exactly.
pub open spec fn indicated_kind(indicator: Seq<char>) -> Option<AttributeKind> {
    if indicator == "integer"@ {
        Some(AttributeKind::Integer)
    } else if indicator == "string"@ {
        Some(AttributeKind::String)
    } else if indicator == "enumeration"@ {
        Some(AttributeKind::Enumeration)
    } else {
        None
    }
}

/// The number in a signed numeric field, where the field exists and holds
/// one.
pub open spec fn integer_field(field: Option<Seq<char>>) -> Option<i64> {
    match field {
        Some(text) => decoded_integer(text),
        None => None,
    }
}

/// The number in a length field, where the field exists and holds one.
pub open spec fn length_field(field: Option<Seq<char>>) -> Option<u64> {
    match field {
        Some(text) => decoded_length(text),
        None => None,
    }
}

/// The type that an indicator and the constraint files beside it decode
/// to. The indicator selects the shape; the shape says which fields are
/// required: minimum, maximum and increment for an integer, the two length
/// bounds for a string, the list of values for an enumeration. There is no
/// type where the indicator is unknown, or a required field is missing or
/// does not have the expected shape. Fields that the shape does not
/// require are not looked at.
pub open spec fn decoded_type(indicator: Seq<char>, constraints: ConstraintTexts) -> Option<
    AttributeTypeView,
> {
    match indicated_kind(indicator) {
        Some(AttributeKind::Integer) => match (
            integer_field(constraints.min_value),
            integer_field(constraints.max_value),
            integer_field(constraints.scalar_increment),
        ) {
            (Some(min), Some(max), Some(step)) => Some(
                AttributeTypeView::Integer { min, max, step },
            ),
            _ => None,
        },
        Some(AttributeKind::String) => match (
            length_field(constraints.min_length),
            length_field(constraints.max_length),
        ) {
            (Some(min_length), Some(max_length)) => Some(
                AttributeTypeView::String { min_length, max_length },
            ),
            _ => None,
        },
        Some(AttributeKind::Enumeration) => match constraints.possible_values {
            Some(text) => Some(AttributeTypeView::Enumeration { possible_values: lines_of(text) }),
            None => None,
        },
        None => None,
    }
}

/// The token that names a shape in a type indicator.
pub open spec fn indicator_of(kind: AttributeKind) -> Seq<char> {
    match kind {
        AttributeKind::Integer => "integer"@,
        AttributeKind::String => "string"@,
        AttributeKind::Enumeration => "enumeration"@,
    }
}

/// The constraint files that describe `tpe`, in their canonical text: each
/// number in decimal, the possible values one per line. Only the files
/// that the shape of `tpe` requires exist.
pub open spec fn encoded_constraints(tpe: AttributeTypeView) -> ConstraintTexts {
    match tpe {
        AttributeTypeView::Integer { min, max, step } => ConstraintTexts {
            min_value: Some(integer_text(min as int)),
            max_value: Some(integer_text(max as int)),
            scalar_increment: Some(integer_text(step as int)),
            min_length: None,
            max_length: None,
            possible_values: None,
        },
        AttributeTypeView::String { min_length, max_length } => ConstraintTexts {
            min_value: None,
            max_value: None,
            scalar_increment: None,
            min_length: Some(integer_text(min_length as int)),
            max_length: Some(integer_text(max_length as int)),
            possible_values: None,
        },
        AttributeTypeView::Enumeration { possible_values } => ConstraintTexts {
            min_value: None,
            max_value: None,
            scalar_increment: None,
            min_length: None,
            max_length: None,
            possible_values: Some(joined_lines(possible_values)),
        },
    }
}

/// Whether the canonical text of `tpe` can hold its values apart: no
/// possible value of an enumeration holds a line break, and the last one,
/// if there is any, is not empty. The other two shapes always can.
pub open spec fn is_encodable(tpe: AttributeTypeView) -> bool {
    tpe matches AttributeTypeView::Enumeration { possible_values } ==> {
        &&& forall|i: int|
            0 <= i < possible_values.len() ==> is_single_line(#[trigger] possible_values[i])
        &&& possible_values.len() > 0 ==> possible_values.last().len() > 0
    }
}

/// The three tokens are told apart: each selects its own shape.
pub proof fn lemma_indicator_round_trip(kind: AttributeKind)
    ensures
        indicated_kind(indicator_of(kind)) == Some(kind),
{
    reveal_strlit("integer");
    reveal_strlit("string");
    reveal_strlit("enumeration");
    assert("integer"@.len() == 7);
    assert("string"@.len() == 6);
    assert("enumeration"@.len() == 11);
}

/// Decoding the canonical text of a type gives that type back, field for
/// field, for each of the three shapes.
pub proof fn lemma_type_round_trip(tpe: AttributeTypeView)
    requires
        is_encodable(tpe),
    ensures
        decoded_type(indicator_of(tpe.kind()), encoded_constraints(tpe)) == Some(tpe),
{
    lemma_indicator_round_trip(tpe.kind());
    match tpe {
        AttributeTypeView::Integer { min, max, step } => {
            lemma_integer_text_round_trip(min);
            lemma_integer_text_round_trip(max);
            lemma_integer_text_round_trip(step);
        },
        AttributeTypeView::String { min_length, max_length } => {
            lemma_length_text_round_trip(min_length);
            lemma_length_text_round_trip(max_length);
        },
        AttributeTypeView::Enumeration { possible_values } => {
            lemma_lines_of_joined(possible_values);
        },
    }
}

/// A type is decoded from the files that its shape requires and from no
/// others: two sets of constraint files that agree on those decode alike.
pub proof fn lemma_only_required_fields_count(
    indicator: Seq<char>,
    a: ConstraintTexts,
    b: ConstraintTexts,
)
    requires
        indicated_kind(indicator) == Some(AttributeKind::Integer) ==> a.min_value == b.min_value
            && a.max_value == b.max_value && a.scalar_increment == b.scalar_increment,
        indicated_kind(indicator) == Some(AttributeKind::String) ==> a.min_length == b.min_length
            && a.max_length == b.max_length,
        indicated_kind(indicator) == Some(AttributeKind::Enumeration) ==> a.possible_values
            == b.possible_values,
    ensures
        decoded_type(indicator, a) == decoded_type(indicator, b),
{
}

/// An integer attribute is rejected as soon as one of its minimum, maximum
/// and increment is missing or is not a number.
pub proof fn lemma_integer_needs_three_numbers(constraints: ConstraintTexts)
    ensures
        decoded_type("integer"@, constraints) is Some <==> integer_field(constraints.min_value)
            is Some && integer_field(constraints.max_value) is Some && integer_field(
            constraints.scalar_increment,
        ) is Some,
{
    lemma_indicator_round_trip(AttributeKind::Integer);
}

/// A string attribute is rejected as soon as one of its two length bounds
/// is missing or is not a number.
pub proof fn lemma_string_needs_two_lengths(constraints: ConstraintTexts)
    ensures
        decoded_type("string"@, constraints) is Some <==> length_field(constraints.min_length)
            is Some && length_field(constraints.max_length) is Some,
{
    lemma_indicator_round_trip(AttributeKind::String);
}

/// An enumeration whose list of possible values is empty is accepted, and
/// has no possible value.
pub proof fn lemma_enumeration_accepts_empty_list(constraints: ConstraintTexts)
    requires
        constraints.possible_values == Some(Seq::<char>::empty()),
    ensures
        decoded_type("enumeration"@, constraints) == Some(
            (AttributeTypeView::Enumeration { possible_values: Seq::empty() }),
        ),
{
    lemma_indicator_round_trip(AttributeKind::Enumeration);
}

/// The type that a decoding gave, if it gave one, as a mathematical
/// value.
pub open spec fn decoding_view(r: Result<AttributeType, Error>) -> Option<AttributeTypeView> {
    match r {
        Ok(tpe) => Some(tpe@),
        Err(_) => None,
    }
}

/// Selects the shape that a type indicator names.
pub fn classify_indicator(indicator: &str) -> (r: Option<AttributeKind>)
    ensures
        r == indicated_kind(indicator@),
{
    if same_text(indicator, "integer") {
        Some(AttributeKind::Integer)
    } else if same_text(indicator, "string") {
        Some(AttributeKind::String)
    } else if same_text(indicator, "enumeration") {
        Some(AttributeKind::Enumeration)
    } else {
        None
    }
}

/// Decodes a signed numeric constraint field.
fn read_integer_field(field: &Result<String, ReadError>) -> (r: Option<i64>)
    ensures
        r == integer_field(text_of(*field)),
{
    match field {
        Ok(text) => decode_integer(text.as_str()),
        Err(_) => None,
    }
}

/// Decodes a length constraint field.
fn read_length_field(field: &Result<String, ReadError>) -> (r: Option<u64>)
    ensures
        r == length_field(text_of(*field)),
{
    match field {
        Ok(text) => decode_length(text.as_str()),
        Err(_) => None,
    }
}

/// Decodes the type of an attribute from the text of its type indicator
/// and the constraint files found beside it.
pub fn decode_type(indicator: &str, constraints: &ConstraintFiles) -> (r: Result<
    AttributeType,
    Error,
>)
    ensures
        decoding_view(r) == decoded_type(indicator@, constraints@),
        r matches Err(e) ==> e == Error::MalformedAttribute,
{
    match classify_indicator(indicator) {
        Some(AttributeKind::Integer) => {
            let min = read_integer_field(&constraints.min_value);
            let max = read_integer_field(&constraints.max_value);
            let step = read_integer_field(&constraints.scalar_increment);
            match (min, max, step) {
                (Some(min), Some(max), Some(step)) => Ok(AttributeType::Integer { min, max, step }),
                _ => Err(Error::MalformedAttribute),
            }
        },
        Some(AttributeKind::String) => {
            let min_length = read_length_field(&constraints.min_length);
            let max_length = read_length_field(&constraints.max_length);
            match (min_length, max_length) {
                (Some(min_length), Some(max_length)) => Ok(
                    AttributeType::String { min_length, max_length },
                ),
                _ => Err(Error::MalformedAttribute),
            }
        },
        Some(AttributeKind::Enumeration) => match &constraints.possible_values {
            Ok(text) => Ok(
                AttributeType::Enumeration { possible_values: split_lines(text.as_str()) },
            ),
            Err(_) => Err(Error::MalformedAttribute),
        },
        None => Err(Error::MalformedAttribute),
    }
}

} // verus!
