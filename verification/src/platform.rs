//! Target platforms and the desktop family among them.

use vstd::prelude::*;

verus! {

/// The operating system a build is made for.
#[derive(Clone, Copy, Debug, PartialEq, Eq, Structural)]
pub enum Platform {
    MacOs,
    Linux,
    Windows,
    Android,
    Ios,
    /// Any target that is none of the named ones.
    Other,
}

impl Platform {
    /// The desktop family: macOS, Linux and Windows, and nothing else.
    pub open spec fn desktop(self) -> bool {
        self is MacOs || self is Linux || self is Windows
    }

    /// Tells whether this platform belongs to the desktop family.
    #[verifier::when_used_as_spec(desktop)]
    pub fn is_desktop(self) -> (answer: bool)
        ensures
            answer == self.desktop(),
    {
        match self {
            Platform::MacOs | Platform::Linux | Platform::Windows => true,
            Platform::Android | Platform::Ios | Platform::Other => false,
        }
    }
}

} // verus!
