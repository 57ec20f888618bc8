//! Semantic versions and their decimal rendering.

use vstd::prelude::*;

verus! {

/// A version as the upstream catalog reports it. `build` carries the
/// vendor's build counter, not a semver build-metadata string; `minor`,
/// `patch` and `build` default to 0 when absent upstream.
#[derive(Clone, Copy, PartialEq, Eq, Structural, Debug)]
pub struct SemVersion {
    pub major: u64,
    pub minor: u64,
    pub patch: u64,
    pub build: u64,
}

/// The character for a single decimal digit.
pub open spec fn digit_char(d: nat) -> char
    recommends
        d < 10,
{
    if d == 0 {
        '0'
    } else if d == 1 {
        '1'
    } else if d == 2 {
        '2'
    } else if d == 3 {
        '3'
    } else if d == 4 {
        '4'
    } else if d == 5 {
        '5'
    } else if d == 6 {
        '6'
    } else if d == 7 {
        '7'
    } else if d == 8 {
        '8'
    } else {
        '9'
    }
}

/// The decimal rendering of a natural number, most significant digit first.
pub open spec fn spec_digits(n: nat) -> Seq<char>
    decreases n,
{
    if n < 10 {
        seq![digit_char(n)]
    } else {
        spec_digits(n / 10).push(digit_char(n % 10))
    }
}

fn digit_str(d: u64) -> (r: &'static str)
    requires
        d < 10,
    ensures
        r@ == seq![digit_char(d as nat)],
{
    let table = "0123456789";
    proof {
        reveal_strlit("0123456789");
        assert(table.is_ascii());
    }
    let r = table.substring_ascii(d as usize, d as usize + 1);
    proof {
        assert(r@ =~= seq![digit_char(d as nat)]);
    }
    r
}

/// The decimal rendering of `n`, e.g. 412 becomes "412".
pub fn u64_to_string(n: u64) -> (r: String)
    ensures
        r@ == spec_digits(n as nat),
    decreases n,
{
    if n < 10 {
        let r = String::from_str(digit_str(n));
        proof {
            assert(r@ =~= spec_digits(n as nat));
        }
        r
    } else {
        let mut r = u64_to_string(n / 10);
        r.append(digit_str(n % 10));
        proof {
            assert(r@ =~= spec_digits(n as nat));
        }
        r
    }
}

/// The dotted version stem used by the modern (`major >= 9`) release
/// names: trailing zero components are omitted.
pub open spec fn spec_version_stem(v: SemVersion) -> Seq<char> {
    if v.minor == 0 && v.patch == 0 {
        spec_digits(v.major as nat)
    } else if v.patch == 0 {
        spec_digits(v.major as nat) + "."@ + spec_digits(v.minor as nat)
    } else {
        spec_digits(v.major as nat) + "."@ + spec_digits(v.minor as nat) + "."@ + spec_digits(
            v.patch as nat,
        )
    }
}

/// The build suffix of a legacy (`major < 9`) release name: the build
/// number is zero-padded exactly when its decimal rendering has one
/// digit. This is a literal length check on the textual form; numbers
/// of three or more digits are never padded.
pub open spec fn spec_legacy_build(b: nat) -> Seq<char> {
    if spec_digits(b).len() == 1 {
        seq!['0'] + spec_digits(b)
    } else {
        spec_digits(b)
    }
}

/// The vendor's release-name string for a version, covering both naming
/// epochs: `jdk-{stem}+{build}` from major 9 on, `jdk{major}u{patch}-b{build}`
/// before it (the legacy "update" number lives in `patch`).
pub open spec fn spec_release_name(v: SemVersion) -> Seq<char> {
    if v.major >= 9 {
        "jdk-"@ + spec_version_stem(v) + "+"@ + spec_digits(v.build as nat)
    } else {
        "jdk"@ + spec_digits(v.major as nat) + "u"@ + spec_digits(v.patch as nat) + "-b"@
            + spec_legacy_build(v.build as nat)
    }
}

/// Renders the vendor release name for `semver`.
pub fn semver_to_release(semver: &SemVersion) -> (r: String)
    ensures
        r@ == spec_release_name(*semver),
{
    if semver.major >= 9 {
        let mut r = String::from_str("jdk-");
        r.append(u64_to_string(semver.major).as_str());
        if !(semver.minor == 0 && semver.patch == 0) {
            r.append(".");
            r.append(u64_to_string(semver.minor).as_str());
            if semver.patch != 0 {
                r.append(".");
                r.append(u64_to_string(semver.patch).as_str());
            }
        }
        r.append("+");
        r.append(u64_to_string(semver.build).as_str());
        proof {
            assert(r@ =~= spec_release_name(*semver));
        }
        r
    } else {
        let mut r = String::from_str("jdk");
        r.append(u64_to_string(semver.major).as_str());
        r.append("u");
        r.append(u64_to_string(semver.patch).as_str());
        r.append("-b");
        let build = u64_to_string(semver.build);
        if build.as_str().unicode_len() == 1 {
            r.append("0");
        }
        r.append(build.as_str());
        proof {
            reveal_strlit("0");
            assert(r@ =~= spec_release_name(*semver));
        }
        r
    }
}

/// The full `{major}.{minor}.{patch}+{build}` rendering of a version,
/// the form the plugin host's version parser takes.
pub open spec fn spec_version_string(v: SemVersion) -> Seq<char> {
    spec_digits(v.major as nat) + "."@ + spec_digits(v.minor as nat) + "."@ + spec_digits(
        v.patch as nat,
    ) + "+"@ + spec_digits(v.build as nat)
}

/// Renders a version as `{major}.{minor}.{patch}+{build}`, with no
/// component omitted.
pub fn format_version(v: &SemVersion) -> (r: String)
    ensures
        r@ == spec_version_string(*v),
{
    let mut r = u64_to_string(v.major);
    r.append(".");
    r.append(u64_to_string(v.minor).as_str());
    r.append(".");
    r.append(u64_to_string(v.patch).as_str());
    r.append("+");
    r.append(u64_to_string(v.build).as_str());
    proof {
        assert(r@ =~= spec_version_string(*v));
    }
    r
}

/// True of the ten decimal digit characters.
pub open spec fn is_digit_char(c: char) -> bool {
    c == '0' || c == '1' || c == '2' || c == '3' || c == '4' || c == '5' || c == '6' || c == '7'
        || c == '8' || c == '9'
}

/// The decimal rendering of a number is never empty, consists of digit
/// characters only, ends in the character of `n % 10`, and has a single
/// digit exactly for `n < 10`.
pub proof fn lemma_digits_shape(n: nat)
    ensures
        spec_digits(n).len() >= 1,
        forall|i: int|
            0 <= i < spec_digits(n).len() ==> is_digit_char(#[trigger] spec_digits(n)[i]),
        spec_digits(n)[spec_digits(n).len() - 1] == digit_char(n % 10),
        spec_digits(n).len() == 1 <==> n < 10,
    decreases n,
{
    if n >= 10 {
        lemma_digits_shape(n / 10);
    }
}

/// Law: from major 9 on, every release name carries the `+{build}`
/// suffix, and the version stem before it never ends in a trailing
/// ".0" component (trailing zero components are omitted instead).
pub proof fn lemma_modern_name_shape(v: SemVersion)
    requires
        v.major >= 9,
    ensures
        spec_release_name(v) == "jdk-"@ + spec_version_stem(v) + "+"@ + spec_digits(
            v.build as nat,
        ),
        spec_version_stem(v).len() >= 1,
        spec_version_stem(v).len() >= 2 ==> !(spec_version_stem(v)[spec_version_stem(v).len()
            - 2] == '.' && spec_version_stem(v)[spec_version_stem(v).len() - 1] == '0'),
{
    let stem = spec_version_stem(v);
    lemma_digits_shape(v.major as nat);
    lemma_digits_shape(v.minor as nat);
    lemma_digits_shape(v.patch as nat);
    reveal_strlit(".");
    assert(!is_digit_char('.'));
    if v.minor == 0 && v.patch == 0 {
        assert(stem.len() >= 2 ==> is_digit_char(stem[stem.len() - 2]));
    } else if v.patch == 0 {
        let tail = spec_digits(v.minor as nat);
        if tail.len() == 1 {
            assert(stem[stem.len() - 1] == digit_char((v.minor as nat) % 10));
        } else {
            assert(stem[stem.len() - 2] == tail[tail.len() - 2]);
        }
    } else {
        let tail = spec_digits(v.patch as nat);
        if tail.len() == 1 {
            assert(stem[stem.len() - 1] == digit_char((v.patch as nat) % 10));
        } else {
            assert(stem[stem.len() - 2] == tail[tail.len() - 2]);
        }
    }
}

/// Law: before major 9, the release name is `jdk{major}u{patch}-b{build}`,
/// and the build number is zero-padded exactly when it has one digit.
pub proof fn lemma_legacy_name_padding(v: SemVersion)
    requires
        v.major < 9,
    ensures
        v.build < 10 ==> spec_release_name(v) == "jdk"@ + spec_digits(v.major as nat) + "u"@
            + spec_digits(v.patch as nat) + "-b0"@ + spec_digits(v.build as nat),
        v.build >= 10 ==> spec_release_name(v) == "jdk"@ + spec_digits(v.major as nat) + "u"@
            + spec_digits(v.patch as nat) + "-b"@ + spec_digits(v.build as nat),
{
    lemma_digits_shape(v.build as nat);
    reveal_strlit("-b0");
    reveal_strlit("-b");
    if v.build < 10 {
        assert(spec_release_name(v) =~= "jdk"@ + spec_digits(v.major as nat) + "u"@ + spec_digits(
            v.patch as nat,
        ) + "-b0"@ + spec_digits(v.build as nat));
    } else {
        assert(spec_release_name(v) =~= "jdk"@ + spec_digits(v.major as nat) + "u"@ + spec_digits(
            v.patch as nat,
        ) + "-b"@ + spec_digits(v.build as nat));
    }
}

} // verus!
