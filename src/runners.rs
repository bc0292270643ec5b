//! The machines that release workflows run on.

use vstd::prelude::*;

verus! {

/// A runner label, as workflow files name a machine.
pub struct Runner(pub &'static str);

impl View for Runner {
    type V = Seq<char>;

    open spec fn view(&self) -> Seq<char> {
        self.0@
    }
}

/// CPU architectures that are built for.
#[derive(Debug, Clone, Copy, PartialEq, Eq, Hash, Structural)]
pub enum Arch {
    X86_64,
    AARCH64,
}

/// The name of an architecture, as build targets spell it.
pub open spec fn arch_name(a: Arch) -> Seq<char> {
    match a {
        Arch::X86_64 => "x86_64"@,
        Arch::AARCH64 => "aarch64"@,
    }
}

/// The runner that bundles Linux builds: Ubuntu 20.04 on either
/// architecture, for the oldest glibc.
pub open spec fn linux_bundler_label(a: Arch) -> Seq<char> {
    "ubuntu-20.04"@
}

impl Arch {
    /// The runner that bundles Linux builds for this architecture.
    pub fn linux_bundler(&self) -> (r: Runner)
        ensures
            r@ == linux_bundler_label(*self),
    {
        match self {
            Arch::X86_64 => Runner("ubuntu-20.04"),
            Arch::AARCH64 => Runner("ubuntu-20.04"),
        }
    }

    /// The architecture's name.
    pub fn name(&self) -> (r: String)
        ensures
            r@ == arch_name(*self),
    {
        match self {
            Arch::X86_64 => String::from_str("x86_64"),
            Arch::AARCH64 => String::from_str("aarch64"),
        }
    }
}

/// Operating systems that are built for.
#[derive(Debug, Clone, Copy, PartialEq, Eq, Hash, Structural)]
pub enum Platform {
    Windows,
    Linux,
    Mac,
}

/// The name of a platform, in lower case.
pub open spec fn platform_name(p: Platform) -> Seq<char> {
    match p {
        Platform::Windows => "windows"@,
        Platform::Linux => "linux"@,
        Platform::Mac => "mac"@,
    }
}

impl Platform {
    /// The platform's name.
    pub fn name(&self) -> (r: String)
        ensures
            r@ == platform_name(*self),
    {
        match self {
            Platform::Windows => String::from_str("windows"),
            Platform::Linux => String::from_str("linux"),
            Platform::Mac => String::from_str("mac"),
        }
    }
}

/// Release channels that workflows publish to.
#[derive(Debug, Clone, Copy, PartialEq, Eq, Hash, Structural)]
pub enum ReleaseChannel {
    Nightly,
}

} // verus!
