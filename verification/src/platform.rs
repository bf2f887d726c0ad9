//! The operating system the installer runs on, and the settings that the
//! installer generator writes for the program being installed.

use vstd::prelude::*;

verus! {

/// The operating system family that decides file names, separators and script
/// formats.
#[derive(Clone, Copy, Debug, PartialEq, Eq, Structural)]
pub enum Os {
    Windows,
    Linux,
    /// Any other system (macOS and the other Unix-likes).
    Other,
}

impl Os {
    /// Whether this is Windows.
    pub fn is_windows(&self) -> (res: bool)
        ensures
            res == (*self == Os::Windows),
    {
        match self {
            Os::Windows => true,
            _ => false,
        }
    }
}

/// The name of the program as users see it.
pub const FULL_PROGRAM_NAME: &'static str = "Weather by ThatCoolCoder";

/// The command under which the program is run.
pub const SIMPLE_PROGRAM_NAME: &'static str = "tccweather";

/// Whether the program is a console application.
pub const IS_CONSOLE_APP: bool = false;

/// The smallest major Java version that the program runs on.
pub const MIN_JAVA_VERSION: i32 = 17;

/// Where users are sent to download a Java runtime.
pub const JAVA_DOWNLOAD_URL: &'static str = "https://docs.microsoft.com/en-us/java/openjdk/download";

} // verus!
