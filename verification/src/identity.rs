//! Stable, platform-supplied identities for applications and output devices.

use vstd::prelude::*;

verus! {

/// A stable, platform-supplied identity for a user-recognizable application.
///
/// One value represents the application after the platform adapter has grouped
/// child processes and audio sessions. Display names and process IDs are not
/// valid substitutes for this identity.
#[derive(Clone, Debug, Eq, Ord, PartialEq, PartialOrd)]
pub struct ApplicationId(String);

/// A stable, platform-supplied identity for one exact output device.
///
/// A friendly name, manufacturer, or model must not be used as this value
/// because route restoration requires exact identity equality.
#[derive(Clone, Debug, Eq, Ord, PartialEq, PartialOrd)]
pub struct OutputId(String);

/// Returned when a platform adapter supplies an empty stable identity.
#[derive(Clone, Copy, Debug, Eq, PartialEq)]
pub struct IdentifierError;

impl View for ApplicationId {
    type V = Seq<char>;

    closed spec fn view(&self) -> Seq<char> {
        self.0@
    }
}

impl DeepView for ApplicationId {
    type V = Seq<char>;

    open spec fn deep_view(&self) -> Seq<char> {
        self@
    }
}

impl View for OutputId {
    type V = Seq<char>;

    closed spec fn view(&self) -> Seq<char> {
        self.0@
    }
}

impl DeepView for OutputId {
    type V = Seq<char>;

    open spec fn deep_view(&self) -> Seq<char> {
        self@
    }
}

impl ApplicationId {
    /// Creates an owned identity. Empty identities are rejected at the platform seam.
    pub fn new(value: String) -> (r: Result<Self, IdentifierError>)
        ensures
            value@.len() == 0 <==> r is Err,
            r matches Ok(id) ==> id@ == value@,
    {
        if value.as_str().is_empty() {
            return Err(IdentifierError);
        }
        Ok(ApplicationId(value))
    }

    /// Returns the platform identity without transferring ownership.
    pub fn as_str(&self) -> (s: &str)
        ensures
            s@ == self@,
    {
        self.0.as_str()
    }

    /// An independent copy with the same identity.
    pub fn duplicate(&self) -> (r: Self)
        ensures
            r@ == self@,
    {
        ApplicationId(self.0.clone())
    }

    /// Whether both values denote the same application.
    pub fn same_as(&self, other: &Self) -> (r: bool)
        ensures
            r == (self@ == other@),
    {
        self.0 == other.0
    }
}

impl OutputId {
    /// Creates an owned identity. Empty identities are rejected at the platform seam.
    pub fn new(value: String) -> (r: Result<Self, IdentifierError>)
        ensures
            value@.len() == 0 <==> r is Err,
            r matches Ok(id) ==> id@ == value@,
    {
        if value.as_str().is_empty() {
            return Err(IdentifierError);
        }
        Ok(OutputId(value))
    }

    /// Returns the platform identity without transferring ownership.
    pub fn as_str(&self) -> (s: &str)
        ensures
            s@ == self@,
    {
        self.0.as_str()
    }

    /// An independent copy with the same identity.
    pub fn duplicate(&self) -> (r: Self)
        ensures
            r@ == self@,
    {
        OutputId(self.0.clone())
    }

    /// Whether both values denote the same output device.
    pub fn same_as(&self, other: &Self) -> (r: bool)
        ensures
            r == (self@ == other@),
    {
        self.0 == other.0
    }
}

impl IdentifierError {
    /// The user-facing description of this error.
    pub fn message(&self) -> (s: &'static str)
        ensures
            s@ == "a stable identity cannot be empty"@,
    {
        "a stable identity cannot be empty"
    }
}

} // verus!
