//! The probe: locating the `ping` executable and the arguments it is run with.
use std::path::PathBuf;
use vstd::prelude::*;

verus! {

/// The standard library's owned path, carried through opaquely.
#[verifier::external_type_specification]
#[verifier::external_body]
pub struct ExPathBuf(PathBuf);

/// The error `which` reports when an executable cannot be located.
#[verifier::external_type_specification]
#[verifier::external_body]
pub struct ExWhichError(which::Error);

/// Which IP version a probe may use.
#[derive(Clone, Copy, Debug, PartialEq, Eq, Structural)]
pub enum Family {
    Any,
    IPv4,
    IPv6,
}

/// The operating-system conventions that decide the flags handed to `ping`.
#[derive(Clone, Copy, Debug, PartialEq, Eq, Structural)]
pub enum Platform {
    Unix,
    Windows,
}

/// The flag that pins the IP version, if any.
pub open spec fn family_flag(family: Family) -> Seq<Seq<char>> {
    match family {
        Family::Any => seq![],
        Family::IPv4 => seq!["-4"@],
        Family::IPv6 => seq!["-6"@],
    }
}

/// The arguments of one probe: two echo requests, numeric output, the family
/// flag, then the host.
pub open spec fn ping_arguments(platform: Platform, host: Seq<char>, family: Family) -> Seq<Seq<char>> {
    match platform {
        Platform::Unix => seq!["-n"@, "-c"@, "2"@] + family_flag(family) + seq!["--"@, host],
        Platform::Windows => seq!["-n"@, "2"@] + family_flag(family) + seq![host],
    }
}

/// The views of a list of strings.
pub open spec fn views(v: Seq<String>) -> Seq<Seq<char>> {
    v.map_values(|s: String| s@)
}

/// Relies on `which::which`: searches the executable path for a program of
/// the given name. What it finds depends on the file system, so nothing is
/// claimed of the result.
#[verifier::external_body]
fn locate(name: &str) -> (r: Result<PathBuf, which::Error>) {
    which::which(name)
}

/// A reachability probe that runs the system's `ping` executable.
#[derive(Debug)]
pub struct Pinger {
    binary: PathBuf,
}

impl Pinger {
    /// The executable that probes run.
    pub closed spec fn path(&self) -> PathBuf {
        self.binary
    }

    /// Locates `ping` on the executable path.
    pub fn new() -> (r: Result<Pinger, which::Error>) {
        match locate("ping") {
            Ok(binary) => Ok(Pinger { binary }),
            Err(e) => Err(e),
        }
    }

    /// The executable that probes run.
    pub fn binary(&self) -> (r: &PathBuf)
        ensures
            r == self.path(),
    {
        &self.binary
    }

    /// The arguments that probe `host` under the conventions of `platform`,
    /// restricted to `family` unless it is `Any`.
    pub fn arguments(platform: Platform, host: &str, family: Family) -> (r: Vec<String>)
        ensures
            views(r@) == ping_arguments(platform, host@, family),
    {
        let mut args: Vec<String> = Vec::new();
        args.push(String::from_str("-n"));
        if platform == Platform::Unix {
            args.push(String::from_str("-c"));
        }
        args.push(String::from_str("2"));
        match family {
            Family::IPv4 => args.push(String::from_str("-4")),
            Family::IPv6 => args.push(String::from_str("-6")),
            Family::Any => {},
        }
        if platform == Platform::Unix {
            args.push(String::from_str("--"));
        }
        args.push(String::from_str(host));
        assert(views(args@) =~= ping_arguments(platform, host@, family));
        args
    }
}

/// A probe restricted to one IP version passes that version's flag, ahead of
/// the host, whatever the platform and the host.
pub proof fn family_flag_passed(platform: Platform, host: Seq<char>)
    ensures
        ping_arguments(platform, host, Family::IPv4).contains("-4"@),
        ping_arguments(platform, host, Family::IPv6).contains("-6"@),
        ping_arguments(platform, host, Family::IPv4).last() == host,
        ping_arguments(platform, host, Family::IPv6).last() == host,
{
    let k: int = if platform == Platform::Unix { 3 } else { 2 };
    assert(ping_arguments(platform, host, Family::IPv4)[k] == "-4"@);
    assert(ping_arguments(platform, host, Family::IPv6)[k] == "-6"@);
}

} // verus!
