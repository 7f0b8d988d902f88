//! The handle of a loaded library.

use vstd::prelude::*;
use vstd::string::*;
use crate::platform::Platform;
use crate::text::{c_string, nul_free};

verus! {

/// A library that the loader holds open. The value is made only from an
/// open that succeeded, it cannot be copied, and closing it uses it up, so
/// the loader's handle is closed at most once and never without having
/// been opened.
#[derive(Debug)]
pub struct DynamicLibrary {
    handle: usize,
}

/// The message for a symbol name that holds a zero byte.
pub open spec fn symbol_failure(name: Seq<char>) -> Seq<char> {
    "failed to access `"@ + name + "`"@
}

impl DynamicLibrary {
    /// The loader's handle of the library.
    pub closed spec fn token(&self) -> usize {
        self.handle
    }

    /// Makes the library of what an open came to: a library that owns the
    /// handle where the loader gave one, and no library, only the loader's
    /// message, where it did not.
    pub fn open(maybe_library: Result<usize, String>) -> (library: Result<DynamicLibrary, String>)
        ensures
            library is Ok <==> maybe_library is Ok,
            library is Ok ==> library->Ok_0.token() == maybe_library->Ok_0,
            library is Err ==> library->Err_0 == maybe_library->Err_0,
    {
        match maybe_library {
            Err(err) => Err(err),
            Ok(handle) => Ok(DynamicLibrary { handle }),
        }
    }

    /// The loader's handle of the library.
    pub fn handle(&self) -> (handle: usize)
        ensures
            handle == self.token(),
    {
        self.handle
    }

    /// Prepares the lookup of `symbol` in the library: the handle and the
    /// terminated name to resolve. A name with a zero byte in it is refused.
    /// The library stays open and can be asked again, whatever the answer.
    pub fn symbol(&self, symbol: &str) -> (lookup: Result<(usize, Vec<u8>), String>)
        ensures
            lookup is Ok <==> nul_free(symbol.spec_bytes()),
            lookup is Ok ==> lookup->Ok_0.0 == self.token() && lookup->Ok_0.1@
                == symbol.spec_bytes().push(0),
            lookup is Err ==> lookup->Err_0@ == symbol_failure(symbol@),
    {
        match c_string(symbol.as_bytes()) {
            Some(raw_string) => Ok((self.handle, raw_string)),
            None => {
                let mut message = String::from_str("failed to access `");
                message.append(symbol);
                message.append("`");
                Err(message)
            },
        }
    }

    /// Gives the library up: what is left is the handle that the loader is
    /// to close.
    pub fn close(self) -> (handle: usize)
        ensures
            handle == self.token(),
    {
        self.handle
    }

    /// The name of the environment variable that holds the platform's
    /// search path for dynamic libraries.
    pub fn envvar(platform: Platform) -> (name: &'static str)
        ensures
            name@ == platform.variable_name(),
    {
        match platform {
            Platform::Windows => "PATH",
            Platform::MacOs => "DYLD_LIBRARY_PATH",
            Platform::Unix => "LD_LIBRARY_PATH",
        }
    }

    /// The text that stands between two entries of the platform's search
    /// path.
    pub fn separator(platform: Platform) -> (sep: &'static str)
        ensures
            sep@ == seq![platform.separator_byte() as char],
    {
        proof {
            reveal_strlit(";");
            reveal_strlit(":");
        }
        let sep = match platform {
            Platform::Windows => ";",
            _ => ":",
        };
        assert(sep@ =~= seq![platform.separator_byte() as char]);
        sep
    }
}

} // verus!
