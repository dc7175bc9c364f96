use vstd::prelude::*;
use vstd::arithmetic::div_mod::lemma_fundamental_div_mod_converse;
use vstd::string::StringExecFns;

verus! {

/// A semantic version triple.
///
/// Equality is exact component match: there are no range or compatibility
/// semantics anywhere in this library, because the native library's ABI is
/// not assumed to be backward compatible across point releases.
#[derive(Clone, Copy, Debug, PartialEq, Eq, Structural)]
pub struct Version {
    pub major: u64,
    pub minor: u64,
    pub patch: u64,
}

/// The single integer code that encodes a version triple:
/// `major * 10000 + minor * 100 + patch`.
pub open spec fn spec_version_code(v: Version) -> int {
    v.major * 10000 + v.minor * 100 + v.patch
}

/// The version triple that a single integer code decodes to:
/// `major = code / 10000`, `minor = (code % 10000) / 100`, `patch = code % 100`.
pub open spec fn spec_decode_version(code: u64) -> Version {
    Version {
        major: (code / 10000) as u64,
        minor: ((code % 10000) / 100) as u64,
        patch: (code % 100) as u64,
    }
}

impl Version {
    pub fn new(major: u64, minor: u64, patch: u64) -> (v: Version)
        ensures
            v == (Version { major, minor, patch }),
    {
        Version { major, minor, patch }
    }
}

/// Decode the integer version code reported by the native library into a
/// version triple.  Decoding is deterministic, and the minor and patch
/// components always land below 100.
pub fn decode_version(code: u64) -> (v: Version)
    ensures
        v == spec_decode_version(code),
        v.minor < 100,
        v.patch < 100,
{
    let major = code / 10000;
    let minor = (code % 10000) / 100;
    let patch = code % 100;
    Version { major, minor, patch }
}

/// Decoding is reversible on codes whose minor and patch components are in
/// range: the code built from a triple with `minor < 100` and `patch < 100`
/// decodes to exactly that triple.
pub proof fn lemma_version_decode_round_trip(major: u64, minor: u64, patch: u64)
    requires
        minor < 100,
        patch < 100,
        major * 10000 + minor * 100 + patch <= u64::MAX,
    ensures
        spec_decode_version((major * 10000 + minor * 100 + patch) as u64) == (Version {
            major,
            minor,
            patch,
        }),
{
    let code = (major * 10000 + minor * 100 + patch) as u64;
    lemma_fundamental_div_mod_converse(
        code as int,
        10000,
        major as int,
        minor * 100 + patch,
    );
    assert(code == (major * 100 + minor) * 100 + patch) by {
        assert((major * 100 + minor) * 100 == major * 10000 + minor * 100) by (nonlinear_arith);
    }
    lemma_fundamental_div_mod_converse(
        code as int,
        100,
        major * 100 + minor,
        patch as int,
    );
    lemma_fundamental_div_mod_converse(
        (minor * 100 + patch) as int,
        100,
        minor as int,
        patch as int,
    );
}

/// Decoding any code and re-encoding the resulting triple gives back the
/// same code: the encoding loses nothing.
pub proof fn lemma_version_code_of_decode(code: u64)
    ensures
        spec_version_code(spec_decode_version(code)) == code,
{
    let major = code / 10000;
    let rest = code % 10000;
    let minor = rest / 100;
    let patch = rest % 100;
    assert(code == 10000 * major + rest) by {
        vstd::arithmetic::div_mod::lemma_fundamental_div_mod(code as int, 10000);
    }
    assert(rest == 100 * minor + patch) by {
        vstd::arithmetic::div_mod::lemma_fundamental_div_mod(rest as int, 100);
    }
    assert(patch == code % 100) by {
        lemma_fundamental_div_mod_converse(
            code as int,
            100,
            100 * major + minor,
            patch as int,
        );
        assert((100 * major + minor) * 100 + patch == 10000 * major + (100 * minor + patch))
            by (nonlinear_arith);
    }
}

/// The character for a single decimal digit.
pub open spec fn spec_digit_char(d: int) -> char {
    if d == 0 {
        '0'
    } else if d == 1 {
        '1'
    } else if d == 2 {
        '2'
    } else if d == 3 {
        '3'
    } else if d == 4 {
        '4'
    } else if d == 5 {
        '5'
    } else if d == 6 {
        '6'
    } else if d == 7 {
        '7'
    } else if d == 8 {
        '8'
    } else {
        '9'
    }
}

/// The decimal rendering of a natural number, most significant digit first,
/// with no leading zeros (a lone `0` for zero).
pub open spec fn spec_dec_digits(n: nat) -> Seq<char>
    decreases n,
{
    if n < 10 {
        seq![spec_digit_char(n as int)]
    } else {
        spec_dec_digits(n / 10) + seq![spec_digit_char((n % 10) as int)]
    }
}

/// The textual form of a version triple: `major.minor.patch` in decimal.
pub open spec fn spec_version_text(v: Version) -> Seq<char> {
    spec_dec_digits(v.major as nat) + seq!['.'] + spec_dec_digits(v.minor as nat) + seq![
        '.',
    ] + spec_dec_digits(v.patch as nat)
}

fn digit_str(d: u64) -> (s: &'static str)
    requires
        d < 10,
    ensures
        s@ =~= seq![spec_digit_char(d as int)],
{
    proof {
        reveal_strlit("0");
        reveal_strlit("1");
        reveal_strlit("2");
        reveal_strlit("3");
        reveal_strlit("4");
        reveal_strlit("5");
        reveal_strlit("6");
        reveal_strlit("7");
        reveal_strlit("8");
        reveal_strlit("9");
    }
    if d == 0 {
        "0"
    } else if d == 1 {
        "1"
    } else if d == 2 {
        "2"
    } else if d == 3 {
        "3"
    } else if d == 4 {
        "4"
    } else if d == 5 {
        "5"
    } else if d == 6 {
        "6"
    } else if d == 7 {
        "7"
    } else if d == 8 {
        "8"
    } else {
        "9"
    }
}

/// Render a number in decimal.
pub fn u64_to_dec_string(n: u64) -> (s: String)
    ensures
        s@ == spec_dec_digits(n as nat),
    decreases n,
{
    if n < 10 {
        let s = digit_str(n).to_owned();
        proof {
            assert(s@ =~= spec_dec_digits(n as nat));
        }
        s
    } else {
        let mut s = u64_to_dec_string(n / 10);
        s.append(digit_str(n % 10));
        proof {
            assert(s@ =~= spec_dec_digits(n as nat));
        }
        s
    }
}

impl Version {
    /// The textual `major.minor.patch` form of this version.
    pub fn to_text(&self) -> (s: String)
        ensures
            s@ == spec_version_text(*self),
    {
        proof {
            reveal_strlit(".");
        }
        let mut s = u64_to_dec_string(self.major);
        s.append(".");
        s.append(u64_to_dec_string(self.minor).as_str());
        s.append(".");
        s.append(u64_to_dec_string(self.patch).as_str());
        proof {
            assert(s@ =~= spec_version_text(*self));
        }
        s
    }
}

} // verus!
