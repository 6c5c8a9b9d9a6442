//! Naming the severity and the kind of a message of the validation layers.

use vstd::prelude::*;
use vstd::string::*;

verus! {

/// How grave a message is: one flag for each grade.
#[derive(Clone, Copy, Debug, PartialEq, Eq, Structural)]
pub struct MessageSeverity {
    pub error: bool,
    pub warning: bool,
    pub information: bool,
    pub verbose: bool,
}

/// What a message is about: one flag for each kind.
#[derive(Clone, Copy, Debug, PartialEq, Eq, Structural)]
pub struct MessageType {
    pub general: bool,
    pub validation: bool,
    pub performance: bool,
}

/// The name of a severity in which exactly one flag is set; `None` for any
/// other.
pub open spec fn severity_name(severity: MessageSeverity) -> Option<Seq<char>> {
    if severity.verbose && !severity.information && !severity.warning && !severity.error {
        Some("Verbose"@)
    } else if !severity.verbose && severity.information && !severity.warning && !severity.error {
        Some("Info"@)
    } else if !severity.verbose && !severity.information && severity.warning && !severity.error {
        Some("Warning"@)
    } else if !severity.verbose && !severity.information && !severity.warning && severity.error {
        Some("Error"@)
    } else {
        None
    }
}

/// The name of a kind in which exactly one flag is set; `None` for any
/// other.
pub open spec fn kind_name(ty: MessageType) -> Option<Seq<char>> {
    if ty.general && !ty.validation && !ty.performance {
        Some("General"@)
    } else if !ty.general && ty.validation && !ty.performance {
        Some("Validation"@)
    } else if !ty.general && !ty.validation && ty.performance {
        Some("Performance"@)
    } else {
        None
    }
}

/// The line that reports a message.
pub open spec fn message_line(
    severity: Seq<char>,
    ty: Seq<char>,
    layer_prefix: Seq<char>,
    description: Seq<char>,
) -> Seq<char> {
    "VK-"@ + ty + "-"@ + severity + ": "@ + layer_prefix + ": "@ + description
}

impl MessageSeverity {
    /// Whether exactly one flag is set.
    pub fn is_single(&self) -> (single: bool)
        ensures
            single == severity_name(*self) is Some,
    {
        let verbose: u8 = if self.verbose { 1 } else { 0 };
        let information: u8 = if self.information { 1 } else { 0 };
        let warning: u8 = if self.warning { 1 } else { 0 };
        let error: u8 = if self.error { 1 } else { 0 };
        verbose + information + warning + error == 1
    }
}

impl MessageType {
    /// Whether exactly one flag is set.
    pub fn is_single(&self) -> (single: bool)
        ensures
            single == kind_name(*self) is Some,
    {
        let general: u8 = if self.general { 1 } else { 0 };
        let validation: u8 = if self.validation { 1 } else { 0 };
        let performance: u8 = if self.performance { 1 } else { 0 };
        general + validation + performance == 1
    }
}

/// The name of a severity in which exactly one flag is set.
pub fn message_severity_to_string(severity: MessageSeverity) -> (name: &'static str)
    requires
        severity_name(severity) is Some,
    ensures
        Some(name@) == severity_name(severity),
{
    if severity.verbose {
        "Verbose"
    } else if severity.information {
        "Info"
    } else if severity.warning {
        "Warning"
    } else {
        "Error"
    }
}

/// The name of a kind in which exactly one flag is set.
pub fn message_type_to_string(ty: MessageType) -> (name: &'static str)
    requires
        kind_name(ty) is Some,
    ensures
        Some(name@) == kind_name(ty),
{
    if ty.general {
        "General"
    } else if ty.validation {
        "Validation"
    } else {
        "Performance"
    }
}

/// The line that reports a message of the given severity and kind, which
/// the layer `layer_prefix` sent with the text `description`.
pub fn format_message(
    severity: MessageSeverity,
    ty: MessageType,
    layer_prefix: &str,
    description: &str,
) -> (line: String)
    requires
        severity_name(severity) is Some,
        kind_name(ty) is Some,
    ensures
        line@ == message_line(
            severity_name(severity)->0,
            kind_name(ty)->0,
            layer_prefix@,
            description@,
        ),
{
    let line = String::from_str("VK-").concat(message_type_to_string(ty)).concat("-").concat(
        message_severity_to_string(severity),
    ).concat(": ").concat(layer_prefix).concat(": ").concat(description);
    line
}

} // verus!
