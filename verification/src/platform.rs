//! The platform families and the console a new process is given.

use vstd::prelude::*;
use vstd::string::StringExecFns;

verus! {

/// The operating-system family that the application runs on. It is chosen once,
/// when the application is built or when it starts, and handed to the launcher.
#[derive(Clone, Copy, Debug, PartialEq, Eq, Structural)]
pub enum Platform {
    /// Windows: a new process is started in a console of its own.
    Windows,
    /// macOS: applications are started through the `open` utility.
    MacOs,
    /// Linux and other POSIX systems: the executable is started directly.
    Linux,
    /// Any other system: no way of launching is defined for it.
    Unsupported,
}

impl Platform {
    /// The platform that goes by `name` among the names of operating systems
    /// that a build is made for: `windows`, `macos` and `linux` have a way of
    /// launching, and every other name is unsupported.
    pub open spec fn named(name: Seq<char>) -> Platform {
        if name == "windows"@ {
            Platform::Windows
        } else if name == "macos"@ {
            Platform::MacOs
        } else if name == "linux"@ {
            Platform::Linux
        } else {
            Platform::Unsupported
        }
    }

    /// The platform that goes by `name`, the name of the operating system that
    /// the application was built for.
    pub fn from_target_os(name: &str) -> (platform: Platform)
        ensures
            platform == Platform::named(name@),
    {
        let name = String::from_str(name);
        if name == String::from_str("windows") {
            Platform::Windows
        } else if name == String::from_str("macos") {
            Platform::MacOs
        } else if name == String::from_str("linux") {
            Platform::Linux
        } else {
            Platform::Unsupported
        }
    }

    /// Whether a way of launching is defined for this platform.
    pub open spec fn supported(self) -> bool {
        self != Platform::Unsupported
    }

    /// Whether a way of launching is defined for this platform.
    pub fn is_supported(self) -> (supported: bool)
        ensures
            supported == self.supported(),
    {
        match self {
            Platform::Unsupported => false,
            _ => true,
        }
    }
}

/// The flag with which Windows creates a process in a new console.
pub const CREATE_NEW_CONSOLE: u32 = 0x0000_0010;

/// The console that a new process is given.
#[derive(Clone, Copy, Debug, PartialEq, Eq, Structural)]
pub enum Console {
    /// The process shares the console of the one that starts it.
    Inherited,
    /// The process gets a console of its own, so that closing the console of the
    /// process that started it does not reach it.
    New,
}

impl Console {
    /// The process-creation flags that ask Windows for this console.
    pub open spec fn flags(self) -> u32 {
        match self {
            Console::Inherited => 0,
            Console::New => CREATE_NEW_CONSOLE,
        }
    }

    /// The process-creation flags that ask Windows for this console: none for
    /// an inherited one, `CREATE_NEW_CONSOLE` for a new one.
    pub fn creation_flags(self) -> (flags: u32)
        ensures
            flags == self.flags(),
            flags == 0 <==> self == Console::Inherited,
    {
        match self {
            Console::Inherited => 0,
            Console::New => CREATE_NEW_CONSOLE,
        }
    }
}

/// The three names with a way of launching are told apart, and the empty name
/// is none of them.
pub proof fn lemma_named_platforms()
    ensures
        Platform::named("windows"@) == Platform::Windows,
        Platform::named("macos"@) == Platform::MacOs,
        Platform::named("linux"@) == Platform::Linux,
        Platform::named(Seq::empty()) == Platform::Unsupported,
{
    reveal_strlit("windows");
    reveal_strlit("macos");
    reveal_strlit("linux");
    assert("macos"@.len() != "windows"@.len());
    assert("linux"@[0] != "macos"@[0]);
    assert("linux"@.len() != "windows"@.len());
}

} // verus!
