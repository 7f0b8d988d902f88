//! The platforms whose loader conventions the crate knows.

use vstd::prelude::*;

verus! {

/// The byte `;`, which separates the entries of a search path on Windows.
pub const SEMICOLON: u8 = 59;

/// The byte `:`, which separates the entries of a search path elsewhere.
pub const COLON: u8 = 58;

/// An operating-system family, as far as dynamic loading tells them apart.
#[derive(Clone, Copy, PartialEq, Eq, Debug, Structural)]
pub enum Platform {
    Windows,
    MacOs,
    Unix,
}

impl Platform {
    /// The name of the environment variable that holds the search path.
    pub open spec fn variable_name(self) -> Seq<char> {
        match self {
            Platform::Windows => "PATH"@,
            Platform::MacOs => "DYLD_LIBRARY_PATH"@,
            Platform::Unix => "LD_LIBRARY_PATH"@,
        }
    }

    /// The byte that stands between two entries of the search path.
    pub open spec fn separator_byte(self) -> u8 {
        match self {
            Platform::Windows => SEMICOLON,
            _ => COLON,
        }
    }

    /// Whether double quotes in the search path enclose literal text.
    pub open spec fn quotes(self) -> bool {
        self == Platform::Windows
    }

    /// The separator as a byte.
    pub fn separator(self) -> (sep: u8)
        ensures
            sep == self.separator_byte(),
    {
        match self {
            Platform::Windows => SEMICOLON,
            _ => COLON,
        }
    }

    /// Whether this is the Windows family.
    pub fn is_windows(self) -> (yes: bool)
        ensures
            yes == self.quotes(),
    {
        match self {
            Platform::Windows => true,
            _ => false,
        }
    }
}

} // verus!
