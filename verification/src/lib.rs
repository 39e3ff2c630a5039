//! Typed model of the firmware settings that a platform publishes as a tree
//! of plain-text files, and the decoding rules that turn the raw text of
//! those files into validated values.
//!
//! The library opens no file. Its caller lists the directories of a device
//! and reads their files, and hands over what each read gave: text, or the
//! reason why there is none. From these the library decodes each
//! attribute's type and constraints, assembles attributes and
//! authentication methods, lists them for a device, looks an attribute up
//! by name, and writes the lines in which all of this is shown.

pub mod attribute;
pub mod attribute_type;
pub mod authentication;
pub mod device;
pub mod error;
pub mod number;
pub mod reader;
pub mod report;
pub mod text;

pub use crate::attribute::{Attribute, AttributeFiles, Query};
pub use crate::attribute_type::{AttributeKind, AttributeType, ConstraintFiles};
pub use crate::authentication::{Authentication, AuthenticationFiles, AuthenticationRole};
pub use crate::device::{find_attribute, list_attributes, list_authentications};
pub use crate::error::{AccessDenied, Error, ReadError};
