use vstd::prelude::*;
use vstd::string::*;

verus! {

/// Severity of a notice shown to a user.
#[derive(Debug, Clone, Copy, PartialEq, Eq, Structural)]
pub enum AlertKind {
    Info,
    Warning,
    Error,
    Success,
}

impl AlertKind {
    pub open spec fn class_text(self) -> Seq<char> {
        match self {
            AlertKind::Info => "alert-info"@,
            AlertKind::Warning => "alert-warning"@,
            AlertKind::Error => "alert-error"@,
            AlertKind::Success => "alert-success"@,
        }
    }

    /// The style class of a notice of this kind.
    pub fn class(&self) -> (r: &'static str)
        ensures
            r@ == self.class_text(),
    {
        match self {
            AlertKind::Info => "alert-info",
            AlertKind::Warning => "alert-warning",
            AlertKind::Error => "alert-error",
            AlertKind::Success => "alert-success",
        }
    }
}

} // verus!
