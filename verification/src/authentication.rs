//! The authentication assembler: from the reads of one authentication
//! directory to one `Authentication`.

use vstd::prelude::*;
use crate::error::{Error, ReadError};
use crate::reader::outcome_view;
use crate::text::same_text;

verus! {

/// What an authentication method gives the right to do.
#[derive(Debug, PartialEq, Eq)]
pub enum AuthenticationRole {
    /// Changing the firmware's settings.
    BiosAdmin,
    /// Powering the machine on.
    PowerOn,
    /// A role that this library does not know, with its code as the
    /// firmware gave it.
    Unknown(String),
}

/// A role as a mathematical value.
pub enum AuthenticationRoleView {
    BiosAdmin,
    PowerOn,
    Unknown(Seq<char>),
}

impl View for AuthenticationRole {
    type V = AuthenticationRoleView;

    open spec fn view(&self) -> AuthenticationRoleView {
        match *self {
            AuthenticationRole::BiosAdmin => AuthenticationRoleView::BiosAdmin,
            AuthenticationRole::PowerOn => AuthenticationRoleView::PowerOn,
            AuthenticationRole::Unknown(code) => AuthenticationRoleView::Unknown(code@),
        }
    }
}

impl DeepView for AuthenticationRole {
    type V = AuthenticationRoleView;

    open spec fn deep_view(&self) -> AuthenticationRoleView {
        self.view()
    }
}

impl Clone for AuthenticationRole {
    fn clone(&self) -> (r: Self)
        ensures
            r@ == self@,
    {
        match self {
            AuthenticationRole::BiosAdmin => AuthenticationRole::BiosAdmin,
            AuthenticationRole::PowerOn => AuthenticationRole::PowerOn,
            AuthenticationRole::Unknown(code) => AuthenticationRole::Unknown(code.clone()),
        }
    }
}

/// One authentication method that guards changes to attributes.
#[derive(Debug, PartialEq, Eq)]
pub struct Authentication {
    /// The name of the method's directory, as raw bytes.
    pub name: Vec<u8>,
    pub role: AuthenticationRole,
    pub is_enabled: bool,
}

/// An authentication method as a mathematical value.
pub struct AuthenticationView {
    pub name: Seq<u8>,
    pub role: AuthenticationRoleView,
    pub is_enabled: bool,
}

impl View for Authentication {
    type V = AuthenticationView;

    open spec fn view(&self) -> AuthenticationView {
        AuthenticationView { name: self.name@, role: self.role@, is_enabled: self.is_enabled }
    }
}

impl DeepView for Authentication {
    type V = AuthenticationView;

    open spec fn deep_view(&self) -> AuthenticationView {
        self.view()
    }
}

impl Clone for Authentication {
    fn clone(&self) -> (r: Self)
        ensures
            r@ == self@,
    {
        Authentication {
            name: self.name.clone(),
            role: self.role.clone(),
            is_enabled: self.is_enabled,
        }
    }
}

/// The outcome of each read that the assembler asks for in one
/// authentication directory, with the name of the directory itself.
#[derive(Debug, PartialEq, Eq)]
pub struct AuthenticationFiles {
    /// The name of the directory, as raw bytes.
    pub name: Vec<u8>,
    pub role: Result<String, ReadError>,
    pub is_enabled: Result<String, ReadError>,
}

/// The reads of one authentication directory as a mathematical value.
pub struct AuthenticationFilesView {
    pub name: Seq<u8>,
    pub role: Result<Seq<char>, ReadError>,
    pub is_enabled: Result<Seq<char>, ReadError>,
}

impl View for AuthenticationFiles {
    type V = AuthenticationFilesView;

    open spec fn view(&self) -> AuthenticationFilesView {
        AuthenticationFilesView {
            name: self.name@,
            role: outcome_view(self.role),
            is_enabled: outcome_view(self.is_enabled),
        }
    }
}

impl DeepView for AuthenticationFiles {
    type V = AuthenticationFilesView;

    open spec fn deep_view(&self) -> AuthenticationFilesView {
        self.view()
    }
}

/// The role that a code names. Every code names one: a code that is not
/// known is kept as it is.
pub open spec fn decoded_role(code: Seq<char>) -> AuthenticationRoleView {
    if code == "bios-admin"@ {
        AuthenticationRoleView::BiosAdmin
    } else if code == "power-on-password"@ {
        AuthenticationRoleView::PowerOn
    } else {
        AuthenticationRoleView::Unknown(code)
    }
}

/// The code that names a role.
pub open spec fn code_of(role: AuthenticationRoleView) -> Seq<char> {
    match role {
        AuthenticationRoleView::BiosAdmin => "bios-admin"@,
        AuthenticationRoleView::PowerOn => "power-on-password"@,
        AuthenticationRoleView::Unknown(code) => code,
    }
}

/// The state that the text of an enabled-state file stands for: `1` for
/// enabled, `0` for disabled, and nothing else.
pub open spec fn decoded_enabled(text: Seq<char>) -> Option<bool> {
    if text == "1"@ {
        Some(true)
    } else if text == "0"@ {
        Some(false)
    } else {
        None
    }
}

/// The authentication method that the reads of one directory assemble to,
/// or the failure that stops the assembly. The role is decoded first and
/// the enabled state second. A read that failed is the failure, with the
/// kind of its error; an enabled state that is neither of the two known
/// texts makes the record malformed.
pub open spec fn assembled_authentication(files: AuthenticationFilesView) -> Result<
    AuthenticationView,
    Error,
> {
    match files.role {
        Err(e) => Err(Error::of_read(e)),
        Ok(code) => match files.is_enabled {
            Err(e) => Err(Error::of_read(e)),
            Ok(text) => match decoded_enabled(text) {
                None => Err(Error::MalformedAttribute),
                Some(is_enabled) => Ok(
                    AuthenticationView { name: files.name, role: decoded_role(code), is_enabled },
                ),
            },
        },
    }
}

/// The outcome of an assembly with the authentication method taken as a
/// mathematical value.
pub open spec fn assembly_view(r: Result<Authentication, Error>) -> Result<
    AuthenticationView,
    Error,
> {
    match r {
        Ok(authentication) => Ok(authentication@),
        Err(e) => Err(e),
    }
}

/// The code of a role is the code that it was decoded from: nothing of an
/// unknown code is lost.
pub proof fn lemma_role_keeps_code(code: Seq<char>)
    ensures
        code_of(decoded_role(code)) == code,
        code != "bios-admin"@ && code != "power-on-password"@ ==> decoded_role(code)
            == AuthenticationRoleView::Unknown(code),
{
}

/// Each role is decoded from its own code: the two known codes differ, and
/// an unknown role comes back from any code but those two.
pub proof fn lemma_role_round_trip(role: AuthenticationRoleView)
    requires
        role matches AuthenticationRoleView::Unknown(code) ==> code != "bios-admin"@ && code
            != "power-on-password"@,
    ensures
        decoded_role(code_of(role)) == role,
{
    reveal_strlit("bios-admin");
    reveal_strlit("power-on-password");
    assert("bios-admin"@.len() == 10);
    assert("power-on-password"@.len() == 17);
}

/// The two texts of an enabled state differ, and each stands for its own
/// state.
pub proof fn lemma_enabled_states()
    ensures
        decoded_enabled("1"@) == Some(true),
        decoded_enabled("0"@) == Some(false),
{
    reveal_strlit("1");
    reveal_strlit("0");
    assert("1"@[0] == '1');
    assert("0"@[0] == '0');
}

/// Whatever the role file holds, a directory whose two files were read and
/// whose enabled state is one of the two known texts assembles, and its
/// role is the one that the code names.
pub proof fn lemma_any_role_code_assembles(files: AuthenticationFilesView)
    requires
        files.role is Ok,
        files.is_enabled is Ok,
        decoded_enabled(files.is_enabled->Ok_0) is Some,
    ensures
        assembled_authentication(files) is Ok,
        assembled_authentication(files)->Ok_0.role == decoded_role(files.role->Ok_0),
        code_of(assembled_authentication(files)->Ok_0.role) == files.role->Ok_0,
{
}

/// Decodes the code of a role.
pub fn decode_role(code: &str) -> (r: AuthenticationRole)
    ensures
        r@ == decoded_role(code@),
{
    if same_text(code, "bios-admin") {
        AuthenticationRole::BiosAdmin
    } else if same_text(code, "power-on-password") {
        AuthenticationRole::PowerOn
    } else {
        AuthenticationRole::Unknown(code.to_owned())
    }
}

/// Decodes the text of an enabled-state file.
pub fn decode_enabled(text: &str) -> (r: Result<bool, Error>)
    ensures
        decoded_enabled(text@) is Some ==> r == Ok::<bool, Error>(decoded_enabled(text@)->Some_0),
        decoded_enabled(text@) is None ==> r == Err::<bool, Error>(Error::MalformedAttribute),
{
    if same_text(text, "1") {
        Ok(true)
    } else if same_text(text, "0") {
        Ok(false)
    } else {
        Err(Error::MalformedAttribute)
    }
}

/// Assembles one authentication method from the reads of its directory.
pub fn assemble_authentication(files: &AuthenticationFiles) -> (r: Result<Authentication, Error>)
    ensures
        assembly_view(r) == assembled_authentication(files@),
{
    let role = match &files.role {
        Ok(code) => decode_role(code.as_str()),
        Err(e) => {
            return Err(Error::from_read(*e));
        },
    };
    let is_enabled = match &files.is_enabled {
        Ok(text) => match decode_enabled(text.as_str()) {
            Ok(is_enabled) => is_enabled,
            Err(e) => {
                return Err(e);
            },
        },
        Err(e) => {
            return Err(Error::from_read(*e));
        },
    };
    Ok(Authentication { name: files.name.clone(), role, is_enabled })
}

} // verus!
