//! The attribute assembler: from the reads of one attribute directory to
//! one `Attribute`.

use vstd::prelude::*;
use crate::attribute_type::{
    decode_type, decoded_type, AttributeType, AttributeTypeView, ConstraintFiles, ConstraintTexts,
};
use crate::error::{AccessDenied, Error, ReadError};
use crate::reader::outcome_view;

verus! {

/// One configurable firmware setting.
#[derive(Debug, PartialEq, Eq)]
pub struct Attribute {
    /// The name of the attribute's directory, as raw bytes. It is unique
    /// within a device.
    pub name: Vec<u8>,
    /// The name to show to a person.
    pub display_name: String,
    /// The declared type and its constraints.
    pub tpe: AttributeType,
    /// The value in force, or the fact that the caller may not read it.
    pub current_value: Result<String, AccessDenied>,
    /// The value that the firmware starts from, or the fact that the
    /// caller may not read it.
    pub default_value: Result<String, AccessDenied>,
}

/// An attribute as a mathematical value.
pub struct AttributeView {
    pub name: Seq<u8>,
    pub display_name: Seq<char>,
    pub tpe: AttributeTypeView,
    pub current_value: Result<Seq<char>, AccessDenied>,
    pub default_value: Result<Seq<char>, AccessDenied>,
}

/// A value, or the fact that it may not be read, with the text taken as a
/// sequence of characters.
pub open spec fn value_view(value: Result<String, AccessDenied>) -> Result<
    Seq<char>,
    AccessDenied,
> {
    match value {
        Ok(text) => Ok(text@),
        Err(denied) => Err(denied),
    }
}

impl View for Attribute {
    type V = AttributeView;

    open spec fn view(&self) -> AttributeView {
        AttributeView {
            name: self.name@,
            display_name: self.display_name@,
            tpe: self.tpe@,
            current_value: value_view(self.current_value),
            default_value: value_view(self.default_value),
        }
    }
}

impl DeepView for Attribute {
    type V = AttributeView;

    open spec fn deep_view(&self) -> AttributeView {
        self.view()
    }
}

impl Clone for Attribute {
    fn clone(&self) -> (r: Self)
        ensures
            r@ == self@,
    {
        Attribute {
            name: self.name.clone(),
            display_name: self.display_name.clone(),
            tpe: self.tpe.clone(),
            current_value: match &self.current_value {
                Ok(text) => Ok(text.clone()),
                Err(_) => Err(AccessDenied),
            },
            default_value: match &self.default_value {
                Ok(text) => Ok(text.clone()),
                Err(_) => Err(AccessDenied),
            },
        }
    }
}

/// The outcome of each read that the assembler asks for in one attribute
/// directory, with the name of the directory itself.
#[derive(Debug, PartialEq, Eq)]
pub struct AttributeFiles {
    /// The name of the directory, as raw bytes.
    pub name: Vec<u8>,
    pub display_name: Result<String, ReadError>,
    /// The type indicator.
    pub tpe: Result<String, ReadError>,
    pub constraints: ConstraintFiles,
    pub current_value: Result<String, ReadError>,
    pub default_value: Result<String, ReadError>,
}

/// The reads of one attribute directory as a mathematical value.
pub struct AttributeFilesView {
    pub name: Seq<u8>,
    pub display_name: Result<Seq<char>, ReadError>,
    pub tpe: Result<Seq<char>, ReadError>,
    pub constraints: ConstraintTexts,
    pub current_value: Result<Seq<char>, ReadError>,
    pub default_value: Result<Seq<char>, ReadError>,
}

impl View for AttributeFiles {
    type V = AttributeFilesView;

    open spec fn view(&self) -> AttributeFilesView {
        AttributeFilesView {
            name: self.name@,
            display_name: outcome_view(self.display_name),
            tpe: outcome_view(self.tpe),
            constraints: self.constraints@,
            current_value: outcome_view(self.current_value),
            default_value: outcome_view(self.default_value),
        }
    }
}

impl DeepView for AttributeFiles {
    type V = AttributeFilesView;

    open spec fn deep_view(&self) -> AttributeFilesView {
        self.view()
    }
}

/// What the read of a value file becomes. A readable value is kept; a
/// value that the caller may not read is recorded as denied, which is no
/// failure; any other error of the read is one, of the same kind.
pub open spec fn value_outcome(read: Result<Seq<char>, ReadError>) -> Result<
    Result<Seq<char>, AccessDenied>,
    Error,
> {
    match read {
        Ok(text) => Ok(Ok(text)),
        Err(ReadError::PermissionDenied) => Ok(Err(AccessDenied)),
        Err(e) => Err(Error::of_read(e)),
    }
}

/// Whether the read of a value file gave the value or was refused for
/// lack of permission.
pub open spec fn is_readable_or_denied(read: Result<Seq<char>, ReadError>) -> bool {
    read is Ok || read == Err::<Seq<char>, ReadError>(ReadError::PermissionDenied)
}

/// The type that the reads of an attribute directory declare, if its
/// indicator could be read and decodes together with its constraints.
pub open spec fn declared_type(files: AttributeFilesView) -> Option<AttributeTypeView> {
    match files.tpe {
        Ok(indicator) => decoded_type(indicator, files.constraints),
        Err(_) => None,
    }
}

/// The attribute that the reads of one directory assemble to, or the
/// failure that stops the assembly. The steps are taken in this order, and
/// the first one that fails decides the error:
/// the display name must have been read, else the attribute is malformed;
/// the type must decode, else the attribute is malformed;
/// the current value and then the default value must each be readable or
/// denied, else the error of the read is the failure.
pub open spec fn assembled(files: AttributeFilesView) -> Result<AttributeView, Error> {
    if files.display_name is Err || declared_type(files) is None {
        Err(Error::MalformedAttribute)
    } else if value_outcome(files.current_value) is Err {
        Err(value_outcome(files.current_value)->Err_0)
    } else if value_outcome(files.default_value) is Err {
        Err(value_outcome(files.default_value)->Err_0)
    } else {
        Ok(
            AttributeView {
                name: files.name,
                display_name: files.display_name->Ok_0,
                tpe: declared_type(files)->Some_0,
                current_value: value_outcome(files.current_value)->Ok_0,
                default_value: value_outcome(files.default_value)->Ok_0,
            },
        )
    }
}

/// The outcome of an assembly with the attribute taken as a mathematical
/// value.
pub open spec fn assembly_view(r: Result<Attribute, Error>) -> Result<AttributeView, Error> {
    match r {
        Ok(attribute) => Ok(attribute@),
        Err(e) => Err(e),
    }
}

/// Which text of an attribute a query asks for.
#[derive(Clone, Copy, Debug, PartialEq, Eq, Structural)]
pub enum Query {
    /// The value in force.
    CurrentValue,
    /// The value that the firmware starts from.
    DefaultValue,
    /// The name to show to a person.
    DisplayName,
}

/// The query that two switches select: the default value where it is
/// asked for, else the display name where that is asked for, else the
/// current value.
pub open spec fn selected_query(default: bool, name: bool) -> Query {
    if default {
        Query::DefaultValue
    } else if name {
        Query::DisplayName
    } else {
        Query::CurrentValue
    }
}

/// The answer of an attribute to a query: the text asked for, or the fact
/// that the caller may not read it. The display name can always be read.
pub open spec fn answer_to(attribute: AttributeView, query: Query) -> Result<
    Seq<char>,
    AccessDenied,
> {
    match query {
        Query::CurrentValue => attribute.current_value,
        Query::DefaultValue => attribute.default_value,
        Query::DisplayName => Ok(attribute.display_name),
    }
}

/// A value that the caller may not read is recorded, and is no failure.
pub proof fn lemma_denied_value_is_no_failure()
    ensures
        value_outcome(Err(ReadError::PermissionDenied)) == Ok::<
            Result<Seq<char>, AccessDenied>,
            Error,
        >(Err(AccessDenied)),
{
}

/// An attribute whose current value may not be read is still assembled in
/// full: its name, display name and type are those of the directory, its
/// current value is recorded as denied, and its default value is what the
/// read of the default value alone gives.
pub proof fn lemma_denied_current_value_keeps_the_rest(files: AttributeFilesView)
    requires
        files.display_name is Ok,
        declared_type(files) is Some,
        files.current_value == Err::<Seq<char>, ReadError>(ReadError::PermissionDenied),
        value_outcome(files.default_value) is Ok,
    ensures
        assembled(files) is Ok,
        assembled(files)->Ok_0.name == files.name,
        assembled(files)->Ok_0.display_name == files.display_name->Ok_0,
        assembled(files)->Ok_0.tpe == declared_type(files)->Some_0,
        assembled(files)->Ok_0.current_value == Err::<Seq<char>, AccessDenied>(AccessDenied),
        assembled(files)->Ok_0.default_value == value_outcome(files.default_value)->Ok_0,
        files.default_value is Ok ==> assembled(files)->Ok_0.default_value == Ok::<
            Seq<char>,
            AccessDenied,
        >(files.default_value->Ok_0),
{
}

/// The two values of an attribute are captured independently: each is
/// what its own read gives, whatever became of the other.
pub proof fn lemma_values_are_independent(a: AttributeFilesView, b: AttributeFilesView)
    requires
        assembled(a) is Ok,
        assembled(b) is Ok,
    ensures
        a.current_value == b.current_value ==> assembled(a)->Ok_0.current_value == assembled(
            b,
        )->Ok_0.current_value,
        a.default_value == b.default_value ==> assembled(a)->Ok_0.default_value == assembled(
            b,
        )->Ok_0.default_value,
{
}

/// An attribute is assembled exactly when its display name was read, its
/// type decodes, and neither value file is missing or unreadable for a
/// reason other than permission.
pub proof fn lemma_assembly_succeeds_iff(files: AttributeFilesView)
    ensures
        assembled(files) is Ok <==> (files.display_name is Ok && declared_type(files) is Some
            && is_readable_or_denied(files.current_value) && is_readable_or_denied(
            files.default_value,
        )),
{
}

/// A captured value with its text taken as a sequence of characters.
pub open spec fn captured_view(r: Result<Result<String, AccessDenied>, Error>) -> Result<
    Result<Seq<char>, AccessDenied>,
    Error,
> {
    match r {
        Ok(value) => Ok(value_view(value)),
        Err(e) => Err(e),
    }
}

/// An answer with its text taken as a sequence of characters.
pub open spec fn answer_view(r: Result<&String, AccessDenied>) -> Result<Seq<char>, AccessDenied> {
    match r {
        Ok(text) => Ok(text@),
        Err(denied) => Err(denied),
    }
}

/// Captures the read of a value file: the value, the fact that it is
/// denied, or the failure of the read.
pub fn capture_value(read: &Result<String, ReadError>) -> (r: Result<
    Result<String, AccessDenied>,
    Error,
>)
    ensures
        captured_view(r) == value_outcome(outcome_view(*read)),
{
    match read {
        Ok(text) => Ok(Ok(text.clone())),
        Err(ReadError::PermissionDenied) => Ok(Err(AccessDenied)),
        Err(ReadError::NotFound) => Err(Error::NotFound),
        Err(ReadError::IoError) => Err(Error::IoError),
    }
}

/// Assembles one attribute from the reads of its directory.
pub fn assemble_attribute(files: &AttributeFiles) -> (r: Result<Attribute, Error>)
    ensures
        assembly_view(r) == assembled(files@),
{
    let display_name = match &files.display_name {
        Ok(text) => text.clone(),
        Err(_) => {
            return Err(Error::MalformedAttribute);
        },
    };
    let tpe = match &files.tpe {
        Ok(indicator) => match decode_type(indicator.as_str(), &files.constraints) {
            Ok(tpe) => tpe,
            Err(_) => {
                return Err(Error::MalformedAttribute);
            },
        },
        Err(_) => {
            return Err(Error::MalformedAttribute);
        },
    };
    let current_value = match capture_value(&files.current_value) {
        Ok(value) => value,
        Err(e) => {
            return Err(e);
        },
    };
    let default_value = match capture_value(&files.default_value) {
        Ok(value) => value,
        Err(e) => {
            return Err(e);
        },
    };
    Ok(Attribute { name: files.name.clone(), display_name, tpe, current_value, default_value })
}

impl Attribute {
    /// Answers a query with the text that it asks for, or with the fact
    /// that the caller may not read it.
    pub fn answer(&self, query: Query) -> (r: Result<&String, AccessDenied>)
        ensures
            answer_view(r) == answer_to(self@, query),
    {
        match query {
            Query::CurrentValue => match &self.current_value {
                Ok(text) => Ok(text),
                Err(_) => Err(AccessDenied),
            },
            Query::DefaultValue => match &self.default_value {
                Ok(text) => Ok(text),
                Err(_) => Err(AccessDenied),
            },
            Query::DisplayName => Ok(&self.display_name),
        }
    }
}

/// Selects the query that the two switches of a request ask for.
pub fn select_query(default: bool, name: bool) -> (r: Query)
    ensures
        r == selected_query(default, name),
{
    if default {
        Query::DefaultValue
    } else if name {
        Query::DisplayName
    } else {
        Query::CurrentValue
    }
}

} // verus!
