//! Matrix versions and the order between them.
//!
//! Versions are ordered only within one major version. Across major versions
//! neither is older, newer or equal: the comparison says so explicitly.

use vstd::prelude::*;
use core::cmp::Ordering;
use vstd::std_specs::cmp::PartialOrdSpecImpl;
use crate::error::UnknownVersionError;
use crate::text::{decimal, push_char, push_decimal, str_eq};

verus! {

/// The Matrix versions that are known to exist.
#[derive(Clone, Copy, Debug, PartialEq, Eq, Hash, Structural)]
pub enum MatrixVersion {
    /// Version 1.0, which also stands for the legacy `r0` releases.
    V1_0,
    /// Version 1.1.
    V1_1,
    /// Version 1.2.
    V1_2,
}

/// A version as a major and a minor number.
#[derive(Clone, Copy, Debug, PartialEq, Eq, Structural)]
pub struct VersionRepr {
    pub major: u8,
    pub minor: u8,
}

/// The outcome of comparing two versions.
#[derive(Clone, Copy, Debug, PartialEq, Eq, Structural)]
pub enum VersionOrder {
    /// Same major version, smaller minor version.
    Less,
    /// Same major and minor version.
    Equal,
    /// Same major version, greater minor version.
    Greater,
    /// Different major versions: no order is defined.
    Incomparable,
}

/// How `a` stands to `b`: by minor number within one major version,
/// incomparable across major versions.
pub open spec fn version_order(a: VersionRepr, b: VersionRepr) -> VersionOrder {
    if a.major != b.major {
        VersionOrder::Incomparable
    } else if a.minor < b.minor {
        VersionOrder::Less
    } else if a.minor == b.minor {
        VersionOrder::Equal
    } else {
        VersionOrder::Greater
    }
}

/// The version that a wire token names, if any. The legacy tokens
/// `r0.5.0`, `r0.6.0` and `r0.6.1` name version 1.0.
pub open spec fn version_of_token(token: Seq<char>) -> Option<MatrixVersion> {
    if token == "v1.0"@ || token == "r0.5.0"@ || token == "r0.6.0"@ || token == "r0.6.1"@ {
        Some(MatrixVersion::V1_0)
    } else if token == "v1.1"@ {
        Some(MatrixVersion::V1_1)
    } else if token == "v1.2"@ {
        Some(MatrixVersion::V1_2)
    } else {
        None
    }
}

impl VersionRepr {
    /// Whether `self` has everything that `other` has: both are of one major
    /// version and `self` is not older.
    pub open spec fn includes(self, other: Self) -> bool {
        self.major == other.major && self.minor >= other.minor
    }

    /// A version from its two numbers.
    pub fn new(major: u8, minor: u8) -> (r: Self)
        ensures
            r.major == major,
            r.minor == minor,
    {
        VersionRepr { major, minor }
    }

    /// Compares two versions; across major versions the answer is
    /// `Incomparable`.
    pub fn compare(&self, other: &Self) -> (r: VersionOrder)
        ensures
            r == version_order(*self, *other),
    {
        if self.major != other.major {
            VersionOrder::Incomparable
        } else if self.minor < other.minor {
            VersionOrder::Less
        } else if self.minor == other.minor {
            VersionOrder::Equal
        } else {
            VersionOrder::Greater
        }
    }
}

impl PartialOrd for VersionRepr {
    fn partial_cmp(&self, other: &Self) -> (r: Option<Ordering>) {
        if self.major != other.major {
            return None;
        }
        if self.minor < other.minor {
            Some(Ordering::Less)
        } else if self.minor == other.minor {
            Some(Ordering::Equal)
        } else {
            Some(Ordering::Greater)
        }
    }
}

impl PartialOrdSpecImpl for VersionRepr {
    open spec fn obeys_partial_cmp_spec() -> bool {
        true
    }

    open spec fn partial_cmp_spec(&self, other: &Self) -> Option<Ordering> {
        match version_order(*self, *other) {
            VersionOrder::Incomparable => None,
            VersionOrder::Less => Some(Ordering::Less),
            VersionOrder::Equal => Some(Ordering::Equal),
            VersionOrder::Greater => Some(Ordering::Greater),
        }
    }
}

impl MatrixVersion {
    /// The major number of this version.
    pub open spec fn major(self) -> u8 {
        1
    }

    /// The minor number of this version.
    pub open spec fn minor(self) -> u8 {
        match self {
            MatrixVersion::V1_0 => 0,
            MatrixVersion::V1_1 => 1,
            MatrixVersion::V1_2 => 2,
        }
    }

    /// This version as a major and a minor number.
    pub open spec fn numbers(self) -> VersionRepr {
        VersionRepr { major: self.major(), minor: self.minor() }
    }

    /// Whether `self` has everything that `other` has: both are of one major
    /// version and `self` is not older.
    pub open spec fn includes(self, other: Self) -> bool {
        self.numbers().includes(other.numbers())
    }

    /// The wire token of this version: `v`, the major number, a dot, the
    /// minor number.
    pub open spec fn token(self) -> Seq<char> {
        seq!['v'] + decimal(self.major() as nat) + seq!['.'] + decimal(self.minor() as nat)
    }

    /// The wire token of this version.
    pub fn to_string(&self) -> (r: String)
        ensures
            r@ == self.token(),
    {
        let numbers = self.repr();
        let mut out = String::new();
        push_char(&mut out, 'v');
        push_decimal(&mut out, numbers.major as u64);
        push_char(&mut out, '.');
        push_decimal(&mut out, numbers.minor as u64);
        assert(out@ =~= self.token());
        out
    }

    /// Reads a version from its wire token.
    pub fn try_from(value: &str) -> (r: Result<MatrixVersion, UnknownVersionError>)
        ensures
            match version_of_token(value@) {
                Some(v) => r == Ok::<MatrixVersion, UnknownVersionError>(v),
                None => r == Err::<MatrixVersion, UnknownVersionError>(UnknownVersionError),
            },
    {
        if str_eq(value, "v1.0") || str_eq(value, "r0.5.0") || str_eq(value, "r0.6.0") || str_eq(
            value,
            "r0.6.1",
        ) {
            Ok(MatrixVersion::V1_0)
        } else if str_eq(value, "v1.1") {
            Ok(MatrixVersion::V1_1)
        } else if str_eq(value, "v1.2") {
            Ok(MatrixVersion::V1_2)
        } else {
            Err(UnknownVersionError)
        }
    }

    /// The major and minor number of this version.
    pub fn repr(&self) -> (r: VersionRepr)
        ensures
            r == self.numbers(),
    {
        match self {
            MatrixVersion::V1_0 => VersionRepr::new(1, 0),
            MatrixVersion::V1_1 => VersionRepr::new(1, 1),
            MatrixVersion::V1_2 => VersionRepr::new(1, 2),
        }
    }

    /// Compares two versions; across major versions the answer is
    /// `Incomparable`.
    pub fn compare(self, other: Self) -> (r: VersionOrder)
        ensures
            r == version_order(self.numbers(), other.numbers()),
    {
        self.repr().compare(&other.repr())
    }

    /// Checks whether a version is compatible with another.
    ///
    /// A is a superset of B when both have the same major version and B's
    /// minor version is equal or less.
    pub fn is_superset_of(self, other: Self) -> (r: bool)
        ensures
            r == self.includes(other),
            r == (self.major() == other.major() && self.minor() >= other.minor()),
    {
        self.repr() >= other.repr()
    }
}

/// Within one major version a version includes another exactly when its
/// minor number is not smaller. Across major versions neither includes the
/// other, and the comparison says that they cannot be compared.
pub proof fn lemma_order_within_major_only(a: VersionRepr, b: VersionRepr)
    ensures
        a.major == b.major ==> (a.includes(b) <==> a.minor >= b.minor),
        a.major == b.major ==> version_order(a, b) != VersionOrder::Incomparable,
        a.major != b.major ==> !a.includes(b) && !b.includes(a),
        a.major != b.major ==> version_order(a, b) == VersionOrder::Incomparable,
        a.includes(b) <==> (version_order(a, b) == VersionOrder::Greater || version_order(a, b)
            == VersionOrder::Equal),
{
}

/// Within one major version, including is an order: every version includes
/// itself, two versions that include each other are the same, and what a
/// version includes, every version that includes it includes too.
pub proof fn lemma_includes_is_an_order(a: VersionRepr, b: VersionRepr, c: VersionRepr)
    ensures
        a.includes(a),
        a.includes(b) && b.includes(a) ==> a == b,
        a.includes(b) && b.includes(c) ==> a.includes(c),
{
}

/// Reading the wire token of a version gives the version back.
pub proof fn lemma_token_round_trip(v: MatrixVersion)
    ensures
        version_of_token(v.token()) == Some(v),
{
    reveal_strlit("v1.0");
    reveal_strlit("v1.1");
    reveal_strlit("v1.2");
    reveal_strlit("r0.5.0");
    reveal_strlit("r0.6.0");
    reveal_strlit("r0.6.1");
    reveal_with_fuel(decimal, 2);
    assert(v.token() =~= match v {
        MatrixVersion::V1_0 => "v1.0"@,
        MatrixVersion::V1_1 => "v1.1"@,
        MatrixVersion::V1_2 => "v1.2"@,
    });
    assert("v1.0"@[3] != "v1.1"@[3]);
    assert("v1.0"@[3] != "v1.2"@[3]);
    assert("v1.1"@[3] != "v1.2"@[3]);
    assert("v1.1"@.len() != "r0.5.0"@.len());
}

} // verus!
