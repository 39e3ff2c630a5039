//! The lines of text in which a device, its attributes and its
//! authentication methods are shown to a person.
//!
//! Names are raw bytes everywhere else in the library. They become text
//! here and only here, and bytes that are no text are replaced on the way.

use vstd::prelude::*;
use vstd::string::StringExecFns;
use vstd::utf8::{encode_utf8, valid_utf8};
use crate::attribute::{answer_view, value_view, Attribute, AttributeView};
use crate::attribute_type::{AttributeType, AttributeTypeView};
use crate::authentication::{
    Authentication, AuthenticationRole, AuthenticationRoleView, AuthenticationView,
};
use crate::error::AccessDenied;
use crate::number::{integer_text, render_integer, render_length};

verus! {

/// The text that a raw name is shown as: the name itself where it is
/// valid UTF-8, and else the name with each invalid sequence of bytes
/// replaced by U+FFFD.
pub uninterp spec fn lossy_text(bytes: Seq<u8>) -> Seq<char>;

/// Calls `String::from_utf8_lossy`, which converts bytes to text and puts
/// the replacement character U+FFFD in the place of every sequence that is
/// not valid UTF-8. Its result is named `lossy_text`. The contract adds
/// what the documentation says of valid input: the text is made of the
/// very bytes that were given.
#[verifier::external_body]
fn decode_lossy(bytes: &[u8]) -> (r: String)
    ensures
        r@ == lossy_text(bytes@),
        valid_utf8(bytes@) ==> encode_utf8(r@) == bytes@,
{
    String::from_utf8_lossy(bytes).into_owned()
}

/// The text that is shown where a value may not be read.
pub open spec fn denied_text() -> Seq<char> {
    "<Access Denied>"@
}

/// The line that opens the report on a device.
pub open spec fn device_line(shown: Seq<char>) -> Seq<char> {
    "Device: "@ + shown
}

/// The line that says how many attributes a device has.
pub open spec fn count_line(count: nat) -> Seq<char> {
    "    "@ + integer_text(count as int) + " attributes"@
}

/// The text of a value, or the notice that it may not be read.
pub open spec fn shown_value(value: Result<Seq<char>, AccessDenied>) -> Seq<char> {
    match value {
        Ok(text) => text,
        Err(_) => denied_text(),
    }
}

/// The lines that describe a type and its constraints.
pub open spec fn type_lines(tpe: AttributeTypeView) -> Seq<Seq<char>> {
    match tpe {
        AttributeTypeView::Integer { min, max, step } => seq![
            "    Type: Integer"@,
            "        Min: "@ + integer_text(min as int),
            "        Max: "@ + integer_text(max as int),
            "        Step: "@ + integer_text(step as int),
        ],
        AttributeTypeView::String { min_length, max_length } => seq![
            "    Type: String"@,
            "        Min: "@ + integer_text(min_length as int),
            "        Max: "@ + integer_text(max_length as int),
        ],
        AttributeTypeView::Enumeration { possible_values } => seq![
            "    Type: Enumeration"@,
            "        Possible Values:"@,
        ] + Seq::new(possible_values.len(), |i: int| "            "@ + possible_values[i]),
    }
}

/// The lines that describe one attribute in full: its name as shown, its
/// display name, its type, and its two values.
pub open spec fn attribute_lines(shown: Seq<char>, attribute: AttributeView) -> Seq<Seq<char>> {
    seq![shown, "    Name: "@ + attribute.display_name] + type_lines(attribute.tpe) + seq![
        "    Current value: "@ + shown_value(attribute.current_value),
        "    Default value: "@ + shown_value(attribute.default_value),
    ]
}

/// The line that names one attribute in a summary.
pub open spec fn summary_line(shown: Seq<char>, attribute: AttributeView) -> Seq<char> {
    shown + ": "@ + attribute.display_name
}

/// What a role allows, in words.
pub open spec fn role_text(role: AuthenticationRoleView) -> Seq<char> {
    match role {
        AuthenticationRoleView::BiosAdmin => "Change BIOS Settings"@,
        AuthenticationRoleView::PowerOn => "Power on computer"@,
        AuthenticationRoleView::Unknown(code) => "Unkown role ("@ + code + ")"@,
    }
}

/// Whether a method is in use, in words.
pub open spec fn status_text(is_enabled: bool) -> Seq<char> {
    if is_enabled {
        "Enabled"@
    } else {
        "Disabled"@
    }
}

/// The lines that describe one authentication method.
pub open spec fn authentication_lines(shown: Seq<char>, authentication: AuthenticationView) -> Seq<
    Seq<char>,
> {
    seq![
        "        "@ + shown,
        "            Role: "@ + role_text(authentication.role),
        "            Status: "@ + status_text(authentication.is_enabled),
    ]
}

/// The lines of the attributes of a device, each described in full, one
/// after the other.
pub open spec fn all_attribute_lines(attributes: Seq<AttributeView>) -> Seq<Seq<char>>
    decreases attributes.len(),
{
    if attributes.len() == 0 {
        Seq::empty()
    } else {
        all_attribute_lines(attributes.drop_last()) + attribute_lines(
            lossy_text(attributes.last().name),
            attributes.last(),
        )
    }
}

/// The lines of a summary, one for each attribute.
pub open spec fn all_summary_lines(attributes: Seq<AttributeView>) -> Seq<Seq<char>> {
    Seq::new(
        attributes.len(),
        |i: int| summary_line(lossy_text(attributes[i].name), attributes[i]),
    )
}

/// The lines of the authentication methods of a device, one method after
/// the other.
pub open spec fn all_authentication_lines(authentications: Seq<AuthenticationView>) -> Seq<
    Seq<char>,
>
    decreases authentications.len(),
{
    if authentications.len() == 0 {
        Seq::empty()
    } else {
        all_authentication_lines(authentications.drop_last()) + authentication_lines(
            lossy_text(authentications.last().name),
            authentications.last(),
        )
    }
}

/// The heading of a report on a device: its line, then an empty line.
pub open spec fn heading(device: Seq<u8>) -> Seq<Seq<char>> {
    seq![device_line(lossy_text(device)), Seq::empty()]
}

/// The report on every attribute of a device.
pub open spec fn device_report(device: Seq<u8>, attributes: Seq<AttributeView>) -> Seq<Seq<char>> {
    heading(device) + all_attribute_lines(attributes)
}

/// The report on one attribute of a device.
pub open spec fn attribute_report(device: Seq<u8>, attribute: AttributeView) -> Seq<Seq<char>> {
    heading(device) + attribute_lines(lossy_text(attribute.name), attribute)
}

/// The summary of a device: its heading, then one line for each
/// attribute.
pub open spec fn device_summary(device: Seq<u8>, attributes: Seq<AttributeView>) -> Seq<Seq<char>> {
    heading(device) + all_summary_lines(attributes)
}

/// The part of a device's description that lists its authentication
/// methods: nothing where it has none, and else an empty line, a title,
/// and the lines of each method.
pub open spec fn authentication_block(authentications: Seq<AuthenticationView>) -> Seq<Seq<char>> {
    if authentications.len() == 0 {
        Seq::empty()
    } else {
        seq![Seq::empty(), "    Authentication methods:"@] + all_authentication_lines(
            authentications,
        )
    }
}

/// The message that says that a device has no attribute of some name.
pub open spec fn missing_attribute_text(shown: Seq<char>) -> Seq<char> {
    "no attribute with name "@ + shown
}

/// Puts a text behind a label.
fn labelled(label: &str, text: &str) -> (r: String)
    ensures
        r@ == label@ + text@,
{
    let mut line = String::from_str(label);
    line.append(text);
    line
}

/// Adds a line to the end of a report.
fn push_line(lines: &mut Vec<String>, line: String)
    ensures
        final(lines).deep_view() == old(lines).deep_view().push(line@),
{
    lines.push(line);
}

/// Adds the lines of one report to the end of another.
fn push_lines(lines: &mut Vec<String>, more: Vec<String>)
    ensures
        final(lines).deep_view() == old(lines).deep_view() + more.deep_view(),
{
    let mut more = more;
    lines.append(&mut more);
}

/// Writes the line that opens the report on a device, under the name
/// that it is shown as.
pub fn render_device_line(shown: &str) -> (r: String)
    ensures
        r@ == device_line(shown@),
{
    labelled("Device: ", shown)
}

/// Writes the line that opens the report on the device of the given name.
pub fn render_device_title(device: &[u8]) -> (r: String)
    ensures
        r@ == device_line(lossy_text(device@)),
        valid_utf8(device@) ==> exists|shown: Seq<char>|
            encode_utf8(shown) == device@ && r@ == device_line(shown),
{
    let shown = decode_lossy(device);
    render_device_line(shown.as_str())
}

/// Writes the line that says how many attributes a device has.
pub fn render_count_line(count: usize) -> (r: String)
    ensures
        r@ == count_line(count as nat),
{
    let digits = render_length(count as u64);
    let mut line = labelled("    ", digits.as_str());
    line.append(" attributes");
    line
}

/// Writes the text that answers a query: the text itself, or the notice
/// that it may not be read.
pub fn render_answer(answer: Result<&String, AccessDenied>) -> (r: String)
    ensures
        r@ == shown_value(answer_view(answer)),
{
    match answer {
        Ok(text) => text.clone(),
        Err(_) => String::from_str("<Access Denied>"),
    }
}

/// Writes a value behind its label.
fn render_value_line(label: &str, value: &Result<String, AccessDenied>) -> (r: String)
    ensures
        r@ == label@ + shown_value(value_view(*value)),
{
    match value {
        Ok(text) => labelled(label, text.as_str()),
        Err(_) => labelled(label, "<Access Denied>"),
    }
}

/// Writes the lines that describe a type and its constraints.
pub fn render_type(tpe: &AttributeType) -> (r: Vec<String>)
    ensures
        r.deep_view() == type_lines(tpe@),
{
    let mut lines: Vec<String> = Vec::new();
    match tpe {
        AttributeType::Integer { min, max, step } => {
            push_line(&mut lines, String::from_str("    Type: Integer"));
            push_line(&mut lines, labelled("        Min: ", render_integer(*min).as_str()));
            push_line(&mut lines, labelled("        Max: ", render_integer(*max).as_str()));
            push_line(&mut lines, labelled("        Step: ", render_integer(*step).as_str()));
        },
        AttributeType::String { min_length, max_length } => {
            push_line(&mut lines, String::from_str("    Type: String"));
            push_line(&mut lines, labelled("        Min: ", render_length(*min_length).as_str()));
            push_line(&mut lines, labelled("        Max: ", render_length(*max_length).as_str()));
        },
        AttributeType::Enumeration { possible_values } => {
            push_line(&mut lines, String::from_str("    Type: Enumeration"));
            push_line(&mut lines, String::from_str("        Possible Values:"));
            let ghost values = possible_values.deep_view();
            let mut i: usize = 0;
            while i < possible_values.len()
                invariant
                    0 <= i <= possible_values.len(),
                    values == possible_values.deep_view(),
                    lines.deep_view() == seq![
                        "    Type: Enumeration"@,
                        "        Possible Values:"@,
                    ] + Seq::new(i as nat, |k: int| "            "@ + values[k]),
                decreases possible_values.len() - i,
            {
                let line = labelled("            ", possible_values[i].as_str());
                push_line(&mut lines, line);
                assert(lines.deep_view() =~= seq![
                    "    Type: Enumeration"@,
                    "        Possible Values:"@,
                ] + Seq::new((i + 1) as nat, |k: int| "            "@ + values[k]));
                i = i + 1;
            }
        },
    }
    lines
}

/// Writes the lines that describe one attribute in full, under the name
/// that it is shown as.
pub fn render_attribute(shown: &str, attribute: &Attribute) -> (r: Vec<String>)
    ensures
        r.deep_view() == attribute_lines(shown@, attribute@),
{
    let mut lines: Vec<String> = Vec::new();
    push_line(&mut lines, String::from_str(shown));
    push_line(&mut lines, labelled("    Name: ", attribute.display_name.as_str()));
    push_lines(&mut lines, render_type(&attribute.tpe));
    push_line(&mut lines, render_value_line("    Current value: ", &attribute.current_value));
    push_line(&mut lines, render_value_line("    Default value: ", &attribute.default_value));
    lines
}

/// Writes the line that names one attribute in a summary, under the name
/// that it is shown as.
pub fn render_summary_line(shown: &str, attribute: &Attribute) -> (r: String)
    ensures
        r@ == summary_line(shown@, attribute@),
{
    let mut line = labelled(shown, ": ");
    line.append(attribute.display_name.as_str());
    line
}

/// Says in words what a role allows.
pub fn render_role(role: &AuthenticationRole) -> (r: String)
    ensures
        r@ == role_text(role@),
{
    match role {
        AuthenticationRole::BiosAdmin => String::from_str("Change BIOS Settings"),
        AuthenticationRole::PowerOn => String::from_str("Power on computer"),
        AuthenticationRole::Unknown(code) => {
            let mut text = labelled("Unkown role (", code.as_str());
            text.append(")");
            text
        },
    }
}

/// Says in words whether a method is in use.
pub fn render_status(is_enabled: bool) -> (r: &'static str)
    ensures
        r@ == status_text(is_enabled),
{
    if is_enabled {
        "Enabled"
    } else {
        "Disabled"
    }
}

/// Writes the lines that describe one authentication method, under the
/// name that it is shown as.
pub fn render_authentication(shown: &str, authentication: &Authentication) -> (r: Vec<String>)
    ensures
        r.deep_view() == authentication_lines(shown@, authentication@),
{
    let mut lines: Vec<String> = Vec::new();
    push_line(&mut lines, labelled("        ", shown));
    push_line(
        &mut lines,
        labelled("            Role: ", render_role(&authentication.role).as_str()),
    );
    push_line(
        &mut lines,
        labelled("            Status: ", render_status(authentication.is_enabled)),
    );
    lines
}

/// Writes the message that says that a device has no attribute of the
/// name shown.
pub fn render_missing_attribute(shown: &str) -> (r: String)
    ensures
        r@ == missing_attribute_text(shown@),
{
    labelled("no attribute with name ", shown)
}

/// Writes the message that says that a device has no attribute of the
/// given name.
pub fn render_missing_attribute_named(name: &[u8]) -> (r: String)
    ensures
        r@ == missing_attribute_text(lossy_text(name@)),
        valid_utf8(name@) ==> exists|shown: Seq<char>|
            encode_utf8(shown) == name@ && r@ == missing_attribute_text(shown),
{
    let shown = decode_lossy(name);
    render_missing_attribute(shown.as_str())
}

/// Writes the heading of a report on a device.
fn render_heading(device: &[u8]) -> (r: Vec<String>)
    ensures
        r.deep_view() == heading(device@),
{
    let mut lines: Vec<String> = Vec::new();
    push_line(&mut lines, render_device_title(device));
    push_line(&mut lines, String::new());
    lines
}

/// Writes the report on one attribute of a device.
pub fn render_attribute_report(device: &[u8], attribute: &Attribute) -> (r: Vec<String>)
    ensures
        r.deep_view() == attribute_report(device@, attribute@),
{
    let mut lines = render_heading(device);
    let shown = decode_lossy(attribute.name.as_slice());
    push_lines(&mut lines, render_attribute(shown.as_str(), attribute));
    lines
}

/// Writes the report on every attribute of a device.
pub fn render_device_report(device: &[u8], attributes: &Vec<Attribute>) -> (r: Vec<String>)
    ensures
        r.deep_view() == device_report(device@, attributes.deep_view()),
{
    let mut lines = render_heading(device);
    let ghost all = attributes.deep_view();
    let mut i: usize = 0;
    while i < attributes.len()
        invariant
            0 <= i <= attributes.len(),
            all == attributes.deep_view(),
            lines.deep_view() == heading(device@) + all_attribute_lines(all.take(i as int)),
        decreases attributes.len() - i,
    {
        let attribute = &attributes[i];
        let shown = decode_lossy(attribute.name.as_slice());
        let more = render_attribute(shown.as_str(), attribute);
        push_lines(&mut lines, more);
        assert(all.take(i + 1).drop_last() =~= all.take(i as int));
        i = i + 1;
    }
    assert(all.take(attributes.len() as int) =~= all);
    lines
}

/// Writes the summary of a device.
pub fn render_device_summary(device: &[u8], attributes: &Vec<Attribute>) -> (r: Vec<String>)
    ensures
        r.deep_view() == device_summary(device@, attributes.deep_view()),
{
    let mut lines = render_heading(device);
    let ghost all = attributes.deep_view();
    let mut i: usize = 0;
    assert(lines.deep_view() =~= heading(device@) + Seq::new(
        0,
        |k: int| summary_line(lossy_text(all[k].name), all[k]),
    ));
    while i < attributes.len()
        invariant
            0 <= i <= attributes.len(),
            all == attributes.deep_view(),
            lines.deep_view() == heading(device@) + Seq::new(
                i as nat,
                |k: int| summary_line(lossy_text(all[k].name), all[k]),
            ),
        decreases attributes.len() - i,
    {
        let attribute = &attributes[i];
        let shown = decode_lossy(attribute.name.as_slice());
        let line = render_summary_line(shown.as_str(), attribute);
        push_line(&mut lines, line);
        assert(lines.deep_view() =~= heading(device@) + Seq::new(
            (i + 1) as nat,
            |k: int| summary_line(lossy_text(all[k].name), all[k]),
        ));
        i = i + 1;
    }
    lines
}

/// Writes the part of a device's description that lists its
/// authentication methods.
pub fn render_authentication_block(authentications: &Vec<Authentication>) -> (r: Vec<String>)
    ensures
        r.deep_view() == authentication_block(authentications.deep_view()),
{
    let mut lines: Vec<String> = Vec::new();
    if authentications.len() == 0 {
        return lines;
    }
    push_line(&mut lines, String::new());
    push_line(&mut lines, String::from_str("    Authentication methods:"));
    let ghost all = authentications.deep_view();
    let ghost title = seq![Seq::<char>::empty(), "    Authentication methods:"@];
    let mut i: usize = 0;
    while i < authentications.len()
        invariant
            0 <= i <= authentications.len(),
            all == authentications.deep_view(),
            title == seq![Seq::<char>::empty(), "    Authentication methods:"@],
            lines.deep_view() == title + all_authentication_lines(all.take(i as int)),
        decreases authentications.len() - i,
    {
        let authentication = &authentications[i];
        let shown = decode_lossy(authentication.name.as_slice());
        let more = render_authentication(shown.as_str(), authentication);
        push_lines(&mut lines, more);
        assert(all.take(i + 1).drop_last() =~= all.take(i as int));
        i = i + 1;
    }
    assert(all.take(authentications.len() as int) =~= all);
    lines
}

} // verus!
