//! Ubuntu release versions (`YY.MM[.patch]`), which are based on the date of release.

use vstd::prelude::*;

use crate::text::{
    char_index, chars_of, equals, extend, first_word, first_word_of, is_ascii_digit, is_whitespace,
    lemma_find_first_is, non_whitespace_pred, split_at_char, split_char, string_of, trim_start,
    whitespace_pred,
};

verus! {

#[derive(Debug)]
pub enum VersionParseError {
    /// release version component was not a number
    VersionNaN(String),
    /// invalid minor release version: expected 4 or 10
    InvalidMinorVersion(u8),
    /// major version does not exist
    NoMajor,
    /// minor version does not exist
    NoMinor,
    /// release version is empty
    NoVersion,
}

/// Why the version of the running system is not known.
#[derive(Debug)]
pub enum VersionError {
    /// `/etc/os-release` could not be read, for this reason.
    OsRelease(String),
    /// Its version could not be parsed.
    Parse(VersionParseError),
}

/// What parsing a version string yields.
pub enum ParsedVersion {
    Version(Version),
    NotANumber(Seq<char>),
    InvalidMinor(u8),
    NoMajor,
    NoMinor,
    NoVersion,
}

impl VersionParseError {
    pub open spec fn outcome(&self) -> ParsedVersion {
        match self {
            VersionParseError::VersionNaN(s) => ParsedVersion::NotANumber(s@),
            VersionParseError::InvalidMinorVersion(m) => ParsedVersion::InvalidMinor(*m),
            VersionParseError::NoMajor => ParsedVersion::NoMajor,
            VersionParseError::NoMinor => ParsedVersion::NoMinor,
            VersionParseError::NoVersion => ParsedVersion::NoVersion,
        }
    }
}

/// The version of an Ubuntu release, which is based on the date of release.
#[derive(Clone, Copy, Debug, Eq, Hash, PartialEq, Structural)]
pub struct Version {
    pub major: u8,
    pub minor: u8,
    pub patch: u8,
}

// ---------------------------------------------------------------------------
// Decimal numbers
// ---------------------------------------------------------------------------

pub open spec fn digit_value(c: char) -> nat {
    (c as int - '0' as int) as nat
}

/// The number that a string of decimal digits writes.
pub open spec fn digits_value(s: Seq<char>) -> nat
    decreases s.len(),
{
    if s.len() == 0 {
        0
    } else {
        digits_value(s.drop_last()) * 10 + digit_value(s.last())
    }
}

pub open spec fn all_digits(s: Seq<char>) -> bool {
    forall|i: int| 0 <= i < s.len() ==> is_ascii_digit(#[trigger] s[i])
}

/// `u8::from_str`: an optional `+`, then one or more decimal digits whose value fits in a
/// `u8`.
pub open spec fn parse_u8(s: Seq<char>) -> Option<u8> {
    let d = if s.len() > 0 && s[0] == '+' {
        s.drop_first()
    } else {
        s
    };
    if d.len() > 0 && all_digits(d) && digits_value(d) <= 255 {
        Some(digits_value(d) as u8)
    } else {
        None
    }
}

proof fn lemma_digits_value_prefix(s: Seq<char>, j: int)
    requires
        0 <= j <= s.len(),
        all_digits(s),
    ensures
        digits_value(s.take(j)) <= digits_value(s),
    decreases s.len(),
{
    if j < s.len() {
        let t = s.drop_last();
        assert(all_digits(t)) by {
            assert forall|i: int| 0 <= i < t.len() implies is_ascii_digit(#[trigger] t[i]) by {
                assert(t[i] == s[i]);
            }
        }
        lemma_digits_value_prefix(t, j);
        assert(t.take(j) =~= s.take(j));
    } else {
        assert(s.take(j) =~= s);
    }
}

/// Parses a `u8` as `u8::from_str` does.
pub fn parse_u8_exec(v: &Vec<char>) -> (r: Option<u8>)
    ensures
        r == parse_u8(v@),
{
    let start: usize = if v.len() > 0 && v[0] == '+' {
        1
    } else {
        0
    };
    let ghost d = if v@.len() > 0 && v@[0] == '+' {
        v@.drop_first()
    } else {
        v@
    };
    assert(d =~= v@.skip(start as int));
    if start == v.len() {
        return None;
    }
    let mut acc: u32 = 0;
    let mut i = start;
    while i < v.len()
        invariant
            start <= i <= v.len(),
            d == v@.skip(start as int),
            d == (if v@.len() > 0 && v@[0] == '+' {
                v@.drop_first()
            } else {
                v@
            }),
            acc == digits_value(v@.subrange(start as int, i as int)),
            acc <= 255,
            forall|k: int| start <= k < i ==> is_ascii_digit(#[trigger] v@[k]),
        decreases v.len() - i,
    {
        let c = v[i];
        assert(d[i - start] == v@[i as int]);
        if !('0' <= c && c <= '9') {
            assert(!is_ascii_digit(d[i - start]));
            assert(!all_digits(d));
            return None;
        }
        let ghost sub = v@.subrange(start as int, i + 1);
        assert(sub.drop_last() =~= v@.subrange(start as int, i as int));
        assert(sub.last() == c);
        assert(digits_value(sub) == acc * 10 + digit_value(c));
        acc = acc * 10 + (c as u32 - '0' as u32);
        assert(acc == digits_value(sub));
        if acc > 255 {
            proof {
                if all_digits(d) {
                    assert(d.take(i + 1 - start) =~= v@.subrange(start as int, i + 1));
                    lemma_digits_value_prefix(d, i + 1 - start);
                }
            }
            return None;
        }
        i = i + 1;
    }
    assert(d =~= v@.subrange(start as int, v.len() as int));
    Some(acc as u8)
}

/// The decimal digits of `n`, without leading zeros (`"0"` for zero).
pub open spec fn decimal(n: nat) -> Seq<char>
    decreases n,
{
    if n < 10 {
        seq![(n + '0' as nat) as char]
    } else {
        decimal(n / 10).push(((n % 10) + '0' as nat) as char)
    }
}

/// The `Display` text of an unsigned integer.
pub fn decimal_exec(n: u64) -> (r: Vec<char>)
    ensures
        r@ == decimal(n as nat),
    decreases n,
{
    if n < 10 {
        let c = char_of_digit(n);
        let mut r: Vec<char> = Vec::new();
        r.push(c);
        assert(r@ =~= decimal(n as nat));
        r
    } else {
        let mut r = decimal_exec(n / 10);
        let c = char_of_digit(n % 10);
        r.push(c);
        r
    }
}

fn char_of_digit(d: u64) -> (c: char)
    requires
        d < 10,
    ensures
        c == (d + '0' as nat) as char,
{
    if d == 0 {
        '0'
    } else if d == 1 {
        '1'
    } else if d == 2 {
        '2'
    } else if d == 3 {
        '3'
    } else if d == 4 {
        '4'
    } else if d == 5 {
        '5'
    } else if d == 6 {
        '6'
    } else if d == 7 {
        '7'
    } else if d == 8 {
        '8'
    } else {
        '9'
    }
}

// ---------------------------------------------------------------------------
// Versions
// ---------------------------------------------------------------------------

/// What `FromStr` for `Version` yields: the first whitespace-separated word is split at
/// `.`; the first two parts must be numbers, a third part is the patch level when it is a
/// number and zero otherwise.
pub open spec fn parse_version(s: Seq<char>) -> ParsedVersion {
    match first_word(s) {
        None => ParsedVersion::NoVersion,
        Some(w) => {
            let parts = split_char(w, '.');
            match parse_u8(parts[0]) {
                None => ParsedVersion::NotANumber(parts[0]),
                Some(major) => if parts.len() < 2 {
                    ParsedVersion::NoMinor
                } else {
                    match parse_u8(parts[1]) {
                        None => ParsedVersion::NotANumber(parts[1]),
                        Some(minor) => {
                            let patch = if parts.len() >= 3 {
                                match parse_u8(parts[2]) {
                                    Some(p) => p,
                                    None => 0u8,
                                }
                            } else {
                                0u8
                            };
                            ParsedVersion::Version(Version { major, minor, patch })
                        },
                    }
                },
            }
        },
    }
}

/// The release after `v`: the October release of the same year after an April one, and the
/// April release of the next year otherwise.
pub open spec fn spec_next_release(v: Version) -> Version {
    if v.minor == 10 {
        Version { major: (v.major + 1) as u8, minor: 4, patch: 0 }
    } else {
        Version { major: v.major, minor: 10, patch: 0 }
    }
}

/// Releases come every six months: the release after an April or October release is six
/// months later, counted as `12 * major + minor`.
pub proof fn law_next_release_six_months_later(v: Version)
    requires
        v.minor == 4 || v.minor == 10,
        v.minor == 10 ==> v.major < 255,
    ensures
        spec_next_release(v).major * 12 + spec_next_release(v).minor == v.major * 12 + v.minor + 6,
{
}

/// The text `Display` writes for a version: `major.MM`, where the minor version is padded to
/// two digits, followed by the patch level when it is not zero.
pub open spec fn version_text(v: Version) -> Seq<char> {
    let minor = if v.minor < 10 {
        seq!['0'] + decimal(v.minor as nat)
    } else {
        decimal(v.minor as nat)
    };
    let base = decimal(v.major as nat) + seq!['.'] + minor;
    if v.patch != 0 {
        base + decimal(v.patch as nat)
    } else {
        base
    }
}

proof fn lemma_split_char_nonempty(s: Seq<char>, x: char)
    ensures
        split_char(s, x).len() >= 1,
{
}

impl Version {
    /// Returns `true` if this is a LTS release.
    pub fn is_lts(self) -> (r: bool)
        ensures
            r == (self.major % 2 == 0 && self.minor == 4),
    {
        self.major % 2 == 0 && self.minor == 4
    }

    /// Increments the major / minor version to the next expected release version.
    pub fn next_release(self) -> (r: Version)
        requires
            self.minor == 10 ==> self.major < 255,
        ensures
            r == spec_next_release(self),
    {
        let (major, minor) = if self.minor == 10 {
            (self.major + 1, 4)
        } else {
            (self.major, 10)
        };
        Version { major, minor, patch: 0 }
    }

    /// Parses a version such as `18.04.1 LTS`.
    pub fn parse(input: &str) -> (r: Result<Version, VersionParseError>)
        ensures
            match r {
                Ok(v) => parse_version(input@) == ParsedVersion::Version(v),
                Err(e) => parse_version(input@) == e.outcome(),
            },
    {
        let chars = chars_of(input);
        let word = match first_word_of(&chars) {
            Some(w) => w,
            None => return Err(VersionParseError::NoVersion),
        };
        let parts = split_at_char(&word, '.');
        proof {
            lemma_split_char_nonempty(word@, '.');
            assert(parts@[0]@ == split_char(word@, '.')[0]);
        }
        let major = match parse_u8_exec(&parts[0]) {
            Some(m) => m,
            None => return Err(VersionParseError::VersionNaN(string_of(&parts[0]))),
        };
        if parts.len() < 2 {
            return Err(VersionParseError::NoMinor);
        }
        assert(parts@[1]@ == split_char(word@, '.')[1]);
        let minor = match parse_u8_exec(&parts[1]) {
            Some(m) => m,
            None => return Err(VersionParseError::VersionNaN(string_of(&parts[1]))),
        };
        let patch = if parts.len() >= 3 {
            assert(parts@[2]@ == split_char(word@, '.')[2]);
            match parse_u8_exec(&parts[2]) {
                Some(p) => p,
                None => 0,
            }
        } else {
            0
        };
        Ok(Version { major, minor, patch })
    }

    /// The version of the running system, from the `VERSION` of `/etc/os-release`, or the
    /// reason that file could not be read.
    pub fn detect(os_release_version: Result<&str, String>) -> (r: Result<Version, VersionError>)
        ensures
            match os_release_version {
                Err(why) => r matches Err(VersionError::OsRelease(w)) && w@ == why@,
                Ok(text) => match r {
                    Ok(v) => parse_version(text@) == ParsedVersion::Version(v),
                    Err(VersionError::Parse(e)) => parse_version(text@) == e.outcome(),
                    Err(VersionError::OsRelease(_)) => false,
                },
            },
    {
        match os_release_version {
            Err(why) => Err(VersionError::OsRelease(why)),
            Ok(text) => match Version::parse(text) {
                Ok(v) => Ok(v),
                Err(e) => Err(VersionError::Parse(e)),
            },
        }
    }

    /// The `Display` text of the version, such as `18.04` or `20.10`.
    pub fn to_text(self) -> (r: String)
        ensures
            r@ == version_text(self),
    {
        let mut out = decimal_exec(self.major as u64);
        out.push('.');
        if self.minor < 10 {
            out.push('0');
        }
        let minor = decimal_exec(self.minor as u64);
        extend(&mut out, &minor);
        if self.patch != 0 {
            let patch = decimal_exec(self.patch as u64);
            extend(&mut out, &patch);
        }
        let r = string_of(&out);
        assert(r@ =~= version_text(self));
        r
    }
}

impl std::str::FromStr for Version {
    type Err = VersionParseError;

    fn from_str(input: &str) -> (r: Result<Self, Self::Err>)
        ensures
            match r {
                Ok(v) => parse_version(input@) == ParsedVersion::Version(v),
                Err(e) => parse_version(input@) == e.outcome(),
            },
    {
        Version::parse(input)
    }
}

/// The `i32` that `as` makes of `x`: values above `i32::MAX` wrap around.
pub open spec fn wrap_i32(x: u32) -> int {
    if x <= i32::MAX {
        x as int
    } else {
        x - 0x1_0000_0000
    }
}

/// The number of months between the release of `version` and the month `minor` of the year
/// `2000 + major`. `major` and `minor` count as the `i32` values that `as` makes of them.
pub open spec fn spec_months_since(version: Version, major: u32, minor: u32) -> int {
    (wrap_i32(major) - version.major) * 12 + wrap_i32(minor) - version.minor
}

/// The number of months between the release of `version` and the month `minor` of the year
/// `2000 + major`, with `major` and `minor` read as `i32` (wrapping above `i32::MAX`); the
/// computation must not overflow `i32`.
pub fn months_since(version: Version, major: u32, minor: u32) -> (r: i32)
    requires
        i32::MIN <= (wrap_i32(major) - version.major) * 12 <= i32::MAX,
        (wrap_i32(major) - version.major) * 12 + wrap_i32(minor) <= i32::MAX,
        i32::MIN <= spec_months_since(version, major, minor) <= i32::MAX,
    ensures
        r == spec_months_since(version, major, minor),
{
    let m = major as i32;
    let n = minor as i32;
    assert(m == wrap_i32(major)) by {
        assert(major <= 0x7fff_ffff ==> (major as i32) == major) by (bit_vector);
        assert(major > 0x7fff_ffff ==> (major as i32) == major - 0x1_0000_0000) by (bit_vector);
    }
    assert(n == wrap_i32(minor)) by {
        assert(minor <= 0x7fff_ffff ==> (minor as i32) == minor) by (bit_vector);
        assert(minor > 0x7fff_ffff ==> (minor as i32) == minor - 0x1_0000_0000) by (bit_vector);
    }
    ((m - version.major as i32) * 12) + n - version.minor as i32
}

/// The decimal text of a number is all digits and reads back as the number.
proof fn lemma_decimal(n: nat)
    ensures
        decimal(n).len() >= 1,
        all_digits(decimal(n)),
        digits_value(decimal(n)) == n,
    decreases n,
{
    let d = n % 10;
    assert(digit_value(((d + '0' as nat) as char)) == d) by {
        assert(((d + '0' as nat) as char) as int == d + '0' as int);
    }
    if n < 10 {
        assert(decimal(n).drop_last() =~= Seq::<char>::empty());
        assert(digits_value(Seq::<char>::empty()) == 0);
    } else {
        lemma_decimal(n / 10);
        let s = decimal(n);
        assert(s.drop_last() =~= decimal(n / 10));
        assert forall|i: int| 0 <= i < s.len() implies is_ascii_digit(#[trigger] s[i]) by {
            if i < s.len() - 1 {
                assert(s[i] == decimal(n / 10)[i]);
            }
        }
    }
}

/// Text made of digits holds neither whitespace nor the character `x` unless it is a digit.
proof fn lemma_digits_free_of(s: Seq<char>, x: char)
    requires
        all_digits(s),
        !is_ascii_digit(x),
    ensures
        char_index(s, x) == s.len(),
        forall|i: int| 0 <= i < s.len() ==> !is_whitespace(#[trigger] s[i]),
{
    assert forall|k: int| 0 <= k < s.len() implies !equals(x)(#[trigger] s[k]) by {
        assert(is_ascii_digit(s[k]));
    }
    lemma_find_first_is(s, equals(x), s.len() as int);
    assert forall|i: int| 0 <= i < s.len() implies !is_whitespace(#[trigger] s[i]) by {
        assert(is_ascii_digit(s[i]));
    }
}

/// The text of a release whose patch level is zero parses back to the same version.
pub proof fn law_version_text_round_trip(v: Version)
    requires
        v.patch == 0,
    ensures
        parse_version(version_text(v)) == ParsedVersion::Version(v),
{
    lemma_decimal(v.major as nat);
    lemma_decimal(v.minor as nat);
    let a = decimal(v.major as nat);
    let b = if v.minor < 10 {
        seq!['0'] + decimal(v.minor as nat)
    } else {
        decimal(v.minor as nat)
    };
    if v.minor < 10 {
        let m = decimal(v.minor as nat);
        assert(b.drop_last() =~= seq!['0']);
        assert(digits_value(seq!['0']) == 0) by {
            assert(seq!['0'].drop_last() =~= Seq::<char>::empty());
            assert(digits_value(Seq::<char>::empty()) == 0);
        }
        assert(b.last() == m.last());
        assert(m.len() == 1);
        assert(digits_value(m) == digit_value(m.last())) by {
            assert(m.drop_last() =~= Seq::<char>::empty());
            assert(digits_value(Seq::<char>::empty()) == 0);
        }
        assert forall|i: int| 0 <= i < b.len() implies is_ascii_digit(#[trigger] b[i]) by {
            if i > 0 {
                assert(b[i] == m[i - 1]);
            }
        }
    }
    assert(all_digits(b));
    let t = version_text(v);
    assert(t =~= a + seq!['.'] + b);
    lemma_digits_free_of(a, '.');
    lemma_digits_free_of(b, '.');
    // No whitespace anywhere, and the text starts with a digit.
    assert forall|i: int| 0 <= i < t.len() implies !is_whitespace(#[trigger] t[i]) by {
        if i < a.len() {
            assert(t[i] == a[i]);
        } else if i > a.len() {
            assert(t[i] == b[i - a.len() - 1]);
        }
    }
    assert(!non_whitespace_pred()(t[0]) == false);
    lemma_find_first_is(t, non_whitespace_pred(), 0);
    assert(trim_start(t) =~= t);
    assert forall|k: int| 0 <= k < t.len() implies !whitespace_pred()(#[trigger] t[k]) by {
        assert(!is_whitespace(t[k]));
    }
    lemma_find_first_is(t, whitespace_pred(), t.len() as int);
    assert(t.take(t.len() as int) =~= t);
    assert(first_word(t) == Some(t));
    // The text splits at its one dot.
    assert forall|k: int| 0 <= k < a.len() implies !equals('.')(#[trigger] t[k]) by {
        assert(t[k] == a[k]);
        assert(!equals('.')(a[k]));
    }
    lemma_find_first_is(t, equals('.'), a.len() as int);
    assert(t.take(a.len() as int) =~= a);
    assert(t.skip(a.len() + 1int) =~= b);
    assert(split_char(b, '.') =~= seq![b]);
    assert(split_char(t, '.') =~= seq![a, b]);
}

} // verus!
