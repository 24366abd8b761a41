//! The target platform, selected once at startup by the embedding program.
//! Everything platform-conditional — executable names, the hidden-console
//! flag at spawn time, the liveness-probe mechanism, the port-based
//! termination fallback — is decided from this one value instead of being
//! scattered through the supervisor logic.

use vstd::prelude::*;

verus! {

/// The operating-system family the supervisor runs on.
#[derive(Clone, Copy, PartialEq, Eq, Structural, Debug)]
pub enum Platform {
    Windows,
    Linux,
    /// A Unix-like system without the system-wide install directory
    /// (for example macOS).
    OtherUnix,
}

impl Platform {
    pub open spec fn is_windows(self) -> bool {
        self is Windows
    }

    /// Whether a system-wide install directory for the spawned backend's
    /// resources exists on this platform.
    pub open spec fn spec_has_system_install(self) -> bool {
        self is Linux
    }

    pub fn has_system_install(self) -> (r: bool)
        ensures
            r == self.spec_has_system_install(),
    {
        match self {
            Platform::Linux => true,
            _ => false,
        }
    }

    /// Whether spawning a child process must request window suppression.
    pub open spec fn spec_hides_console(self) -> bool {
        self is Windows
    }

    pub fn hides_console(self) -> (r: bool)
        ensures
            r == self.spec_hides_console(),
    {
        match self {
            Platform::Windows => true,
            _ => false,
        }
    }

    /// Whether the platform has the port-based termination fallback tool.
    pub open spec fn spec_has_port_kill(self) -> bool {
        !(self is Windows)
    }

    pub fn has_port_kill(self) -> (r: bool)
        ensures
            r == self.spec_has_port_kill(),
    {
        match self {
            Platform::Windows => false,
            _ => true,
        }
    }

    /// Name of the bare scripting-language interpreter on this platform.
    pub open spec fn spec_python_command(self) -> Seq<char> {
        if self is Windows {
            "python"@
        } else {
            "python3"@
        }
    }

    pub fn python_command(self) -> (r: &'static str)
        ensures
            r@ == self.spec_python_command(),
    {
        match self {
            Platform::Windows => "python",
            _ => "python3",
        }
    }

    /// Location of the interpreter inside a virtual environment, relative
    /// to the environment directory, with a leading separator.
    pub open spec fn spec_venv_python_rel(self) -> Seq<char> {
        if self is Windows {
            "/Scripts/python.exe"@
        } else {
            "/bin/python"@
        }
    }

    pub fn venv_python_rel(self) -> (r: &'static str)
        ensures
            r@ == self.spec_venv_python_rel(),
    {
        match self {
            Platform::Windows => "/Scripts/python.exe",
            _ => "/bin/python",
        }
    }

    /// Location of the package manager inside a virtual environment,
    /// relative to the environment directory, with a leading separator.
    pub open spec fn spec_venv_pip_rel(self) -> Seq<char> {
        if self is Windows {
            "/Scripts/pip.exe"@
        } else {
            "/bin/pip"@
        }
    }

    pub fn venv_pip_rel(self) -> (r: &'static str)
        ensures
            r@ == self.spec_venv_pip_rel(),
    {
        match self {
            Platform::Windows => "/Scripts/pip.exe",
            _ => "/bin/pip",
        }
    }
}

} // verus!
