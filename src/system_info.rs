//! The record that describes the host: operating system, CPU architecture and
//! the application's version.
use vstd::prelude::*;

verus! {

/// Key of the operating-system field.
pub const PLATFORM_KEY: &'static str = "platform";

/// Key of the CPU-architecture field.
pub const ARCH_KEY: &'static str = "arch";

/// Key of the application-version field.
pub const VERSION_KEY: &'static str = "version";

/// Operating system, CPU architecture and application version, as the
/// front-end receives them.
pub struct SystemInfo {
    pub platform: String,
    pub arch: String,
    pub version: String,
}

impl SystemInfo {
    /// The record of the three values given, each in its own field.
    pub fn new(platform: String, arch: String, version: String) -> (r: SystemInfo)
        ensures
            r.platform@ == platform@,
            r.arch@ == arch@,
            r.version@ == version@,
    {
        SystemInfo { platform, arch, version }
    }

    /// The record as key/value pairs, in the order `platform`, `arch`,
    /// `version`: the shape in which the front-end receives it.
    pub fn entries(&self) -> (r: Vec<(String, String)>)
        ensures
            r@.len() == 3,
            r@[0].0@ == PLATFORM_KEY@,
            r@[0].1@ == self.platform@,
            r@[1].0@ == ARCH_KEY@,
            r@[1].1@ == self.arch@,
            r@[2].0@ == VERSION_KEY@,
            r@[2].1@ == self.version@,
    {
        let mut r: Vec<(String, String)> = Vec::new();
        r.push((String::from_str(PLATFORM_KEY), self.platform.clone()));
        r.push((String::from_str(ARCH_KEY), self.arch.clone()));
        r.push((String::from_str(VERSION_KEY), self.version.clone()));
        r
    }
}

} // verus!
