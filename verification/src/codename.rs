//! Codenames of the Ubuntu releases that Pop!_OS is based on.

use vstd::prelude::*;

use crate::text::{chars_eq, chars_of};
use crate::version::Version;

verus! {

#[derive(Debug)]
pub enum CodenameParseError {
    /// unknown codename string
    NotFound,
}

/// The codename associated with an Ubuntu version.
#[derive(Clone, Copy, Debug, Eq, Hash, PartialEq, Structural)]
pub enum Codename {
    Bionic,
    Cosmic,
    Disco,
    Eoan,
    Focal,
    Groovy,
    Hirsute,
    Impish,
    Jammy,
    Noble,
}

impl Codename {
    /// The lower-case name of the codename, as apt and `/etc/os-release` write it.
    pub open spec fn name(self) -> Seq<char> {
        match self {
            Codename::Bionic => "bionic"@,
            Codename::Cosmic => "cosmic"@,
            Codename::Disco => "disco"@,
            Codename::Eoan => "eoan"@,
            Codename::Focal => "focal"@,
            Codename::Groovy => "groovy"@,
            Codename::Hirsute => "hirsute"@,
            Codename::Impish => "impish"@,
            Codename::Jammy => "jammy"@,
            Codename::Noble => "noble"@,
        }
    }

    /// `(year, month, day)` of the release.
    pub open spec fn spec_release_date(self) -> (u32, u32, u32) {
        match self {
            Codename::Bionic => (2018, 4, 26),
            Codename::Cosmic => (2018, 10, 18),
            Codename::Disco => (2019, 4, 18),
            Codename::Eoan => (2019, 10, 17),
            Codename::Focal => (2020, 4, 23),
            Codename::Groovy => (2020, 10, 22),
            Codename::Hirsute => (2021, 4, 22),
            Codename::Impish => (2021, 10, 14),
            Codename::Jammy => (2022, 4, 21),
            Codename::Noble => (2024, 4, 13),
        }
    }

    /// An April release of an even year is a long term support release, supported for ten
    /// years; any other release is supported until January (April releases) or July
    /// (October releases) of the following year.
    pub open spec fn spec_eol_date(self) -> (u32, u32, u32) {
        let (y, m, d) = self.spec_release_date();
        if y % 2 == 0 && m == 4 {
            ((y + 10) as u32, m, d)
        } else {
            ((y + 1) as u32, if m == 4 {
                1u32
            } else {
                7u32
            }, d)
        }
    }

    /// Seconds since the Unix epoch at which the release was published.
    pub open spec fn spec_release_timestamp(self) -> u64 {
        match self {
            Codename::Bionic => 1_524_700_800,
            Codename::Cosmic => 1_539_820_800,
            Codename::Disco => 1_555_545_600,
            Codename::Eoan => 1_571_270_400,
            Codename::Focal => 1_587_600_000,
            Codename::Groovy => 1_603_324_800,
            Codename::Hirsute => 1_619_071_200,
            Codename::Impish => 1_634_191_200,
            Codename::Jammy => 1_650_492_000,
            Codename::Noble => 1_712_959_200,
        }
    }

    /// `(major, minor)` of the release version.
    pub open spec fn spec_version_numbers(self) -> (u8, u8) {
        match self {
            Codename::Bionic => (18, 4),
            Codename::Cosmic => (18, 10),
            Codename::Disco => (19, 4),
            Codename::Eoan => (19, 10),
            Codename::Focal => (20, 4),
            Codename::Groovy => (20, 10),
            Codename::Hirsute => (21, 4),
            Codename::Impish => (21, 10),
            Codename::Jammy => (22, 4),
            Codename::Noble => (24, 4),
        }
    }

    /// The codename of the release with this major and minor version, if any.
    pub open spec fn spec_from_numbers(major: u8, minor: u8) -> Option<Codename> {
        if major == 18 && minor == 4 {
            Some(Codename::Bionic)
        } else if major == 18 && minor == 10 {
            Some(Codename::Cosmic)
        } else if major == 19 && minor == 4 {
            Some(Codename::Disco)
        } else if major == 19 && minor == 10 {
            Some(Codename::Eoan)
        } else if major == 20 && minor == 4 {
            Some(Codename::Focal)
        } else if major == 20 && minor == 10 {
            Some(Codename::Groovy)
        } else if major == 21 && minor == 4 {
            Some(Codename::Hirsute)
        } else if major == 21 && minor == 10 {
            Some(Codename::Impish)
        } else if major == 22 && minor == 4 {
            Some(Codename::Jammy)
        } else if major == 24 && minor == 4 {
            Some(Codename::Noble)
        } else {
            None
        }
    }

    /// The date when this release is to be, or was, EOL'd.
    pub fn eol_date(self) -> (r: (u32, u32, u32))
        ensures
            r == self.spec_eol_date(),
    {
        let (y, m, d) = self.release_date();
        if y % 2 == 0 && m == 4 {
            (y + 10, m, d)
        } else {
            (y + 1, if m == 4 {
                1
            } else {
                7
            }, d)
        }
    }

    /// Returns the release date in a `(year, month, date)` format
    pub fn release_date(self) -> (r: (u32, u32, u32))
        ensures
            r == self.spec_release_date(),
    {
        match self {
            Codename::Bionic => (2018, 4, 26),
            Codename::Cosmic => (2018, 10, 18),
            Codename::Disco => (2019, 4, 18),
            Codename::Eoan => (2019, 10, 17),
            Codename::Focal => (2020, 4, 23),
            Codename::Groovy => (2020, 10, 22),
            Codename::Hirsute => (2021, 4, 22),
            Codename::Impish => (2021, 10, 14),
            Codename::Jammy => (2022, 4, 21),
            Codename::Noble => (2024, 4, 13),
        }
    }

    /// When this was released, as the time in seconds since the Unix Epoch
    pub fn release_timestamp(self) -> (r: u64)
        ensures
            r == self.spec_release_timestamp(),
    {
        match self {
            Codename::Bionic => 1_524_700_800,
            Codename::Cosmic => 1_539_820_800,
            Codename::Disco => 1_555_545_600,
            Codename::Eoan => 1_571_270_400,
            Codename::Focal => 1_587_600_000,
            Codename::Groovy => 1_603_324_800,
            Codename::Hirsute => 1_619_071_200,
            Codename::Impish => 1_634_191_200,
            Codename::Jammy => 1_650_492_000,
            Codename::Noble => 1_712_959_200,
        }
    }

    /// The lower-case name of the codename.
    pub fn as_str(self) -> (r: &'static str)
        ensures
            r@ == self.name(),
    {
        match self {
            Codename::Bionic => "bionic",
            Codename::Cosmic => "cosmic",
            Codename::Disco => "disco",
            Codename::Eoan => "eoan",
            Codename::Focal => "focal",
            Codename::Groovy => "groovy",
            Codename::Hirsute => "hirsute",
            Codename::Impish => "impish",
            Codename::Jammy => "jammy",
            Codename::Noble => "noble",
        }
    }

    /// The codename whose name is `input`, as `FromStr` for `Codename` parses it.
    pub fn parse(input: &str) -> (r: Result<Codename, CodenameParseError>)
        ensures
            match r {
                Ok(c) => c.name() == input@,
                Err(_) => forall|c: Codename| c.name() != input@,
            },
    {
        let chars = chars_of(input);
        let all = [
            Codename::Bionic,
            Codename::Cosmic,
            Codename::Disco,
            Codename::Eoan,
            Codename::Focal,
            Codename::Groovy,
            Codename::Hirsute,
            Codename::Impish,
            Codename::Jammy,
            Codename::Noble,
        ];
        let mut i: usize = 0;
        while i < 10
            invariant
                chars@ == input@,
                all@ == seq![
                    Codename::Bionic,
                    Codename::Cosmic,
                    Codename::Disco,
                    Codename::Eoan,
                    Codename::Focal,
                    Codename::Groovy,
                    Codename::Hirsute,
                    Codename::Impish,
                    Codename::Jammy,
                    Codename::Noble,
                ],
                forall|k: int| 0 <= k < i ==> all@[k].name() != input@,
            decreases 10 - i,
        {
            let c = all[i];
            if chars_eq(&chars, &chars_of(c.as_str())) {
                return Ok(c);
            }
            i = i + 1;
        }
        assert forall|c: Codename| c.name() != input@ by {
            match c {
                Codename::Bionic => assert(all@[0] == c),
                Codename::Cosmic => assert(all@[1] == c),
                Codename::Disco => assert(all@[2] == c),
                Codename::Eoan => assert(all@[3] == c),
                Codename::Focal => assert(all@[4] == c),
                Codename::Groovy => assert(all@[5] == c),
                Codename::Hirsute => assert(all@[6] == c),
                Codename::Impish => assert(all@[7] == c),
                Codename::Jammy => assert(all@[8] == c),
                Codename::Noble => assert(all@[9] == c),
            }
        }
        Err(CodenameParseError::NotFound)
    }

    /// The version of this release, with a patch level of zero.
    pub fn version(self) -> (v: Version)
        ensures
            (v.major, v.minor) == self.spec_version_numbers(),
            v.patch == 0,
    {
        let (major, minor) = match self {
            Codename::Bionic => (18, 4),
            Codename::Cosmic => (18, 10),
            Codename::Disco => (19, 4),
            Codename::Eoan => (19, 10),
            Codename::Focal => (20, 4),
            Codename::Groovy => (20, 10),
            Codename::Hirsute => (21, 4),
            Codename::Impish => (21, 10),
            Codename::Jammy => (22, 4),
            Codename::Noble => (24, 4),
        };
        Version { major, minor, patch: 0 }
    }

    /// The codename of a version; the patch level is not considered.
    pub fn from_version(version: Version) -> (r: Option<Codename>)
        ensures
            r == Self::spec_from_numbers(version.major, version.minor),
    {
        let (major, minor) = (version.major, version.minor);
        if major == 18 && minor == 4 {
            Some(Codename::Bionic)
        } else if major == 18 && minor == 10 {
            Some(Codename::Cosmic)
        } else if major == 19 && minor == 4 {
            Some(Codename::Disco)
        } else if major == 19 && minor == 10 {
            Some(Codename::Eoan)
        } else if major == 20 && minor == 4 {
            Some(Codename::Focal)
        } else if major == 20 && minor == 10 {
            Some(Codename::Groovy)
        } else if major == 21 && minor == 4 {
            Some(Codename::Hirsute)
        } else if major == 21 && minor == 10 {
            Some(Codename::Impish)
        } else if major == 22 && minor == 4 {
            Some(Codename::Jammy)
        } else if major == 24 && minor == 4 {
            Some(Codename::Noble)
        } else {
            None
        }
    }
}

impl std::str::FromStr for Codename {
    type Err = CodenameParseError;

    fn from_str(input: &str) -> (r: Result<Self, Self::Err>)
        ensures
            match r {
                Ok(c) => c.name() == input@,
                Err(_) => forall|c: Codename| c.name() != input@,
            },
    {
        Codename::parse(input)
    }
}

/// A release's version names that release again, whatever its patch level.
pub proof fn law_version_codename_round_trip(c: Codename)
    ensures
        ({
            let (major, minor) = c.spec_version_numbers();
            Codename::spec_from_numbers(major, minor) == Some(c)
        }),
{
}

/// Every release reaches its end of life after it was released: the EOL date is
/// lexicographically later than the release date.
pub proof fn law_eol_after_release(c: Codename)
    ensures
        ({
            let (y, m, d) = c.spec_release_date();
            let (ey, em, ed) = c.spec_eol_date();
            y < ey && d == ed && 1 <= em <= 12
        }),
{
}

/// A long term support release (an April release of an even year, which `Version::is_lts`
/// recognises by its version) is supported for ten years: its end of life is the same day
/// ten years after its release. Any other release reaches its end of life in the year after
/// its release, in January for an April release and in July for an October one.
pub proof fn law_lts_supported_ten_years(c: Codename)
    ensures
        ({
            let (y, m, d) = c.spec_release_date();
            let (major, minor) = c.spec_version_numbers();
            &&& (major % 2 == 0 && minor == 4) <==> (y % 2 == 0 && m == 4)
            &&& y == 2000 + major
            &&& m == minor
            &&& (y % 2 == 0 && m == 4) ==> c.spec_eol_date() == ((y + 10) as u32, 4u32, d)
            &&& !(y % 2 == 0 && m == 4) ==> c.spec_eol_date() == ((y + 1) as u32, if m == 4 {
                1u32
            } else {
                7u32
            }, d)
        }),
{
}

/// The four long term support releases are supported until the same day ten years on.
pub proof fn law_lts_end_of_life_dates()
    ensures
        Codename::Bionic.spec_eol_date() == (2028u32, 4u32, 26u32),
        Codename::Focal.spec_eol_date() == (2030u32, 4u32, 23u32),
        Codename::Jammy.spec_eol_date() == (2032u32, 4u32, 21u32),
        Codename::Noble.spec_eol_date() == (2034u32, 4u32, 13u32),
{
}

/// Releases have distinct names: two releases with one name are the same release, so the
/// release that `parse` finds for a release's name is that release.
pub proof fn law_codename_name_round_trip(a: Codename, b: Codename)
    ensures
        a.name() == b.name() ==> a == b,
{
    reveal_strlit("bionic");
    reveal_strlit("cosmic");
    reveal_strlit("disco");
    reveal_strlit("eoan");
    reveal_strlit("focal");
    reveal_strlit("groovy");
    reveal_strlit("hirsute");
    reveal_strlit("impish");
    reveal_strlit("jammy");
    reveal_strlit("noble");
    if a.name() == b.name() && a != b {
        assert(a.name()[0] == b.name()[0]);
        assert(a.name().len() == b.name().len());
        assert(a.name()[1] == b.name()[1]);
    }
}

} // verus!
