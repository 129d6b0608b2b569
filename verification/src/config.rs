//! Which runtime version the bridge is built for.

use vstd::prelude::*;
use vstd::string::StrSliceExecFns;
use vstd::string::StringExecFns;

use crate::text::{decimal, decimal_text, parse_decimal, parsed_decimal};

verus! {

/// The ASCII lower case of a character; every other character is itself.
pub open spec fn lower_char(c: char) -> char {
    if c == 'A' {
        'a'
    } else if c == 'B' {
        'b'
    } else if c == 'C' {
        'c'
    } else if c == 'D' {
        'd'
    } else if c == 'E' {
        'e'
    } else if c == 'F' {
        'f'
    } else if c == 'G' {
        'g'
    } else if c == 'H' {
        'h'
    } else if c == 'I' {
        'i'
    } else if c == 'J' {
        'j'
    } else if c == 'K' {
        'k'
    } else if c == 'L' {
        'l'
    } else if c == 'M' {
        'm'
    } else if c == 'N' {
        'n'
    } else if c == 'O' {
        'o'
    } else if c == 'P' {
        'p'
    } else if c == 'Q' {
        'q'
    } else if c == 'R' {
        'r'
    } else if c == 'S' {
        's'
    } else if c == 'T' {
        't'
    } else if c == 'U' {
        'u'
    } else if c == 'V' {
        'v'
    } else if c == 'W' {
        'w'
    } else if c == 'X' {
        'x'
    } else if c == 'Y' {
        'y'
    } else if c == 'Z' {
        'z'
    } else {
        c
    }
}

/// The ASCII lower case of a text.
pub open spec fn lowered(text: Seq<char>) -> Seq<char> {
    text.map_values(|c: char| lower_char(c))
}

/// Lowers a text with `str::to_ascii_lowercase`: the letters `A` to `Z`
/// become `a` to `z` and every other character stays.
#[verifier::external_body]
fn lowercase(value: &str) -> (lower: String)
    ensures
        lower@ == lowered(value@),
{
    value.to_ascii_lowercase()
}

/// The runtime version asked for.
#[derive(Debug, PartialEq, Eq)]
pub enum Version {
    /// The latest installed framework of a major version, such as 8 for
    /// `net8.0`.
    Net(u8),
    /// The full version of the framework, such as `8.0.21`.
    Framework(String),
}

/// Whether a text begins with `net`.
pub open spec fn has_net_prefix(text: Seq<char>) -> bool {
    text.len() >= 3 && text[0] == 'n' && text[1] == 'e' && text[2] == 't'
}

/// Whether the first `.` of a text stands at `at`.
pub open spec fn first_dot(text: Seq<char>, at: int) -> bool {
    &&& 0 <= at < text.len()
    &&& text[at] == '.'
    &&& forall|before: int| 0 <= before < at ==> text[before] != '.'
}

/// How a version is read, in any letter case. `net`, a major version of at
/// most 255 and a `.` ask for the latest framework of that major version;
/// a text that begins with `net` and does not go on so is no version. Any
/// other text is a full framework version, kept in lower case.
pub open spec fn version_read(value: Seq<char>, outcome: Option<Version>) -> bool {
    let lower = lowered(value);
    if has_net_prefix(lower) {
        let rest = lower.skip(3);
        &&& (forall|at: int| !first_dot(rest, at)) ==> outcome.is_none()
        &&& forall|at: int|
            first_dot(rest, at) ==> match parsed_decimal(rest.take(at), 255) {
                Some(major) => outcome == Some(Version::Net(major as u8)),
                None => outcome.is_none(),
            }
    } else {
        outcome matches Some(Version::Framework(full)) && full@ == lower
    }
}

/// The text that a version stands for: `net<major>.0`, or the full version.
pub open spec fn version_text(version: Version) -> Seq<char> {
    match version {
        Version::Net(major) => "net"@ + decimal_text(major as nat) + ".0"@,
        Version::Framework(full) => full@,
    }
}

impl Version {
    /// Reads a version from the text of a configuration.
    pub fn parse(value: &str) -> (outcome: Option<Version>)
        ensures
            version_read(value@, outcome),
    {
        let lower = lowercase(value);
        let text = lower.as_str();
        let length = text.unicode_len();
        let prefixed = length >= 3 && text.get_char(0) == 'n' && text.get_char(1) == 'e'
            && text.get_char(2) == 't';
        if !prefixed {
            return Some(Version::Framework(lower));
        }
        let ghost rest = text@.skip(3);
        let mut at: usize = 3;
        while at < length
            invariant
                3 <= at <= length,
                length == text@.len(),
                text@ == lowered(value@),
                has_net_prefix(text@),
                rest == text@.skip(3),
                forall|before: int| 0 <= before < at - 3 ==> rest[before] != '.',
            decreases length - at,
        {
            if text.get_char(at) == '.' {
                let major = text.substring_char(3, at);
                let outcome = match parse_decimal(major, 255) {
                    Some(number) => Some(Version::Net(number as u8)),
                    None => None,
                };
                proof {
                    let dot = at - 3;
                    assert(rest[dot] == text@[at as int]);
                    assert(first_dot(rest, dot));
                    assert(major@ =~= rest.take(dot));
                    assert forall|other: int| first_dot(rest, other) implies other == dot by {
                        if other > dot {
                            assert(rest[dot] == '.');
                        } else if other < dot {
                            assert(rest[other] != '.');
                        }
                    }
                    assert(lowered(value@) == text@);
                    assert(has_net_prefix(text@));
                }
                return outcome;
            }
            at = at + 1;
        }
        proof {
            assert forall|other: int| !first_dot(rest, other) by {
                if 0 <= other < rest.len() {
                    assert(rest[other] != '.');
                }
            }
        }
        None
    }

    /// The text that the version stands for.
    pub fn text(&self) -> (text: String)
        ensures
            text@ == version_text(*self),
    {
        match self {
            Version::Net(major) => String::from_str("net").concat(
                decimal(*major as u64).as_str(),
            ).concat(".0"),
            Version::Framework(full) => full.clone(),
        }
    }

    /// Whether the version is the one that `other` names.
    pub fn matches(&self, other: &str) -> (same: bool)
        ensures
            same == (version_text(*self) == other@),
    {
        self.text() == other.to_owned()
    }
}

/// Whether an installed framework satisfies a version: its name begins with
/// the major version, or it is the full version itself.
pub open spec fn satisfies(version: Version, installed: Seq<char>) -> bool {
    match version {
        Version::Net(major) => decimal_text(major as nat).is_prefix_of(installed),
        Version::Framework(full) => installed == full@,
    }
}

/// Whether a text begins with another.
fn starts_with(text: &str, prefix: &str) -> (begins: bool)
    ensures
        begins == prefix@.is_prefix_of(text@),
{
    let length = prefix.unicode_len();
    if text.unicode_len() < length {
        return false;
    }
    let mut at: usize = 0;
    while at < length
        invariant
            at <= length,
            length == prefix@.len(),
            length <= text@.len(),
            forall|before: int| 0 <= before < at ==> text@[before] == prefix@[before],
        decreases length - at,
    {
        if text.get_char(at) != prefix.get_char(at) {
            return false;
        }
        at = at + 1;
    }
    assert(prefix@ =~= text@.subrange(0, prefix@.len() as int));
    true
}

impl Version {
    /// Whether an installed framework satisfies the version.
    pub fn accepts(&self, installed: &str) -> (accepted: bool)
        ensures
            accepted == satisfies(*self, installed@),
    {
        match self {
            Version::Net(major) => starts_with(installed, decimal(*major as u64).as_str()),
            Version::Framework(full) => *full == installed.to_owned(),
        }
    }

    /// Picks the framework to build for among the installed ones: the last
    /// of the list that satisfies the version. In a list in ascending order
    /// that is the latest.
    pub fn resolve(&self, installed: &Vec<String>) -> (picked: Option<usize>)
        ensures
            (match picked {
                Some(place) => place < installed@.len() && satisfies(*self, installed@[place as int]@)
                    && forall|later: int|
                    place < later < installed@.len() ==> !satisfies(*self, installed@[later]@),
                None => forall|place: int|
                    0 <= place < installed@.len() ==> !satisfies(*self, installed@[place]@),
            }),
    {
        let mut at: usize = installed.len();
        while at > 0
            invariant
                at <= installed@.len(),
                forall|later: int|
                    at <= later < installed@.len() ==> !satisfies(*self, installed@[later]@),
            decreases at,
        {
            at = at - 1;
            if self.accepts(installed[at].as_str()) {
                return Some(at);
            }
        }
        None
    }
}

/// The target that a framework version belongs to: `net`, what stands
/// before the first `.` of the version, and `.0`. A version without a `.`
/// belongs to none.
pub open spec fn target_read(framework: Seq<char>, outcome: Option<String>) -> bool {
    &&& (forall|at: int| !first_dot(framework, at)) ==> outcome.is_none()
    &&& forall|at: int|
        first_dot(framework, at) ==> (outcome matches Some(target) && target@ == "net"@
            + framework.take(at) + ".0"@)
}

/// The target that a framework version belongs to.
pub fn target_of(framework: &str) -> (outcome: Option<String>)
    ensures
        target_read(framework@, outcome),
{
    let length = framework.unicode_len();
    let mut at: usize = 0;
    while at < length
        invariant
            at <= length,
            length == framework@.len(),
            forall|before: int| 0 <= before < at ==> framework@[before] != '.',
        decreases length - at,
    {
        if framework.get_char(at) == '.' {
            let major = framework.substring_char(0, at);
            let target = String::from_str("net").concat(major).concat(".0");
            proof {
                assert(first_dot(framework@, at as int));
                assert(major@ =~= framework@.take(at as int));
                assert forall|other: int| first_dot(framework@, other) implies other == at by {
                    if other > at {
                        assert(framework@[at as int] == '.');
                    } else if other < at {
                        assert(framework@[other] != '.');
                    }
                }
            }
            return Some(target);
        }
        at = at + 1;
    }
    proof {
        assert forall|other: int| !first_dot(framework@, other) by {
            if 0 <= other < framework@.len() {
                assert(framework@[other] != '.');
            }
        }
    }
    None
}

impl Default for Version {
    fn default() -> (version: Version)
        ensures
            version == Version::Net(8),
    {
        Version::Net(8)
    }
}

/// The build configuration.
#[derive(Debug, PartialEq, Eq)]
pub struct Config {
    pub version: Version,
}

impl Default for Config {
    fn default() -> (config: Config)
        ensures
            config.version == Version::Net(8),
    {
        Config { version: Version::Net(8) }
    }
}

} // verus!
