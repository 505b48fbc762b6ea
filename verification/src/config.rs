//! Settings of the driver and the text forms of the settings that are read
//! from its configuration file.
use vstd::prelude::*;
use crate::enums::PierSide;
use crate::text::{eq_ignore_ascii_case, quoted_after, spec_ascii_lowercase, str_eq};

verus! {

broadcast use vstd::string::group_string_axioms;

/// Serial port settings: the port to use (found automatically when there is
/// none) and the time allowed for an answer of the controller.
#[derive(Debug, Clone)]
pub struct ComSettings {
    pub path: Option<String>,
    pub timeout_millis: u32,
}

impl ComSettings {
    /// Automatic port, 50 ms answer time.
    pub fn default() -> (c: ComSettings)
        ensures
            c.path is None,
            c.timeout_millis == 50,
    {
        ComSettings { path: None, timeout_millis: 50 }
    }
}

/// True for `false`: flags that are off are left out of a written configuration.
pub fn is_false(b: &bool) -> (r: bool)
    ensures
        r == !*b,
{
    !*b
}

/// The fraction of the tracking rate that the controller adds or takes away
/// while auto-guiding.
#[derive(Debug, Clone, Copy, PartialEq, Eq, Structural)]
pub enum AutoGuideSpeed {
    Eighth,
    Quarter,
    Half,
    ThreeQuarters,
    One,
}

impl AutoGuideSpeed {
    /// The fraction in eighths.
    pub open spec fn spec_eighths(self) -> int {
        match self {
            AutoGuideSpeed::Eighth => 1,
            AutoGuideSpeed::Quarter => 2,
            AutoGuideSpeed::Half => 4,
            AutoGuideSpeed::ThreeQuarters => 6,
            AutoGuideSpeed::One => 8,
        }
    }

    /// The fraction of the tracking rate, in eighths.
    pub fn eighths(&self) -> (e: u64)
        ensures
            e == self.spec_eighths(),
    {
        match self {
            AutoGuideSpeed::Eighth => 1,
            AutoGuideSpeed::Quarter => 2,
            AutoGuideSpeed::Half => 4,
            AutoGuideSpeed::ThreeQuarters => 6,
            AutoGuideSpeed::One => 8,
        }
    }

    /// Half speed, the speed used unless another one is configured.
    pub fn default() -> (s: AutoGuideSpeed)
        ensures
            s == AutoGuideSpeed::Half,
    {
        AutoGuideSpeed::Half
    }

    pub open spec fn spec_name(self) -> Seq<char> {
        match self {
            AutoGuideSpeed::One => "1"@,
            AutoGuideSpeed::ThreeQuarters => "3/4"@,
            AutoGuideSpeed::Half => "1/2"@,
            AutoGuideSpeed::Quarter => "1/4"@,
            AutoGuideSpeed::Eighth => "1/8"@,
        }
    }

    /// The text form of the speed in the configuration file.
    pub fn name(&self) -> (n: &'static str)
        ensures
            n@ == self.spec_name(),
    {
        match self {
            AutoGuideSpeed::One => "1",
            AutoGuideSpeed::ThreeQuarters => "3/4",
            AutoGuideSpeed::Half => "1/2",
            AutoGuideSpeed::Quarter => "1/4",
            AutoGuideSpeed::Eighth => "1/8",
        }
    }

    /// The speed whose text form is the given text in lower case, if any.
    pub open spec fn spec_from_text(v: Seq<char>) -> Option<AutoGuideSpeed> {
        let lower = spec_ascii_lowercase(v);
        if lower == "1/8"@ {
            Some(AutoGuideSpeed::Eighth)
        } else if lower == "1/4"@ {
            Some(AutoGuideSpeed::Quarter)
        } else if lower == "1/2"@ {
            Some(AutoGuideSpeed::Half)
        } else if lower == "3/4"@ {
            Some(AutoGuideSpeed::ThreeQuarters)
        } else if lower == "1"@ {
            Some(AutoGuideSpeed::One)
        } else {
            None
        }
    }

    /// Reads a speed from its text form, in any case; the error names the text.
    pub fn from_text(v: &str) -> (r: Result<AutoGuideSpeed, String>)
        ensures
            Self::spec_from_text(v@) matches Some(s) ==> r == Ok::<AutoGuideSpeed, String>(s),
            Self::spec_from_text(v@) is None ==> (r matches Err(m) && m@
                == "unknown auto-guide speed: "@ + "\""@ + v@ + "\""@),
    {
        if eq_ignore_ascii_case(v, "1/8") {
            Ok(AutoGuideSpeed::Eighth)
        } else if eq_ignore_ascii_case(v, "1/4") {
            Ok(AutoGuideSpeed::Quarter)
        } else if eq_ignore_ascii_case(v, "1/2") {
            Ok(AutoGuideSpeed::Half)
        } else if eq_ignore_ascii_case(v, "3/4") {
            Ok(AutoGuideSpeed::ThreeQuarters)
        } else if eq_ignore_ascii_case(v, "1") {
            Ok(AutoGuideSpeed::One)
        } else {
            Err(quoted_after("unknown auto-guide speed: ", v))
        }
    }
}

impl PierSide {
    pub open spec fn spec_name(self) -> Seq<char> {
        match self {
            PierSide::East => "East"@,
            PierSide::West => "West"@,
            PierSide::Unknown => "Unknown"@,
        }
    }

    /// The text form of a known pier side in the configuration file.
    pub fn name(&self) -> (n: &'static str)
        requires
            *self != PierSide::Unknown,
        ensures
            n@ == self.spec_name(),
    {
        match self {
            PierSide::East => "East",
            PierSide::West => "West",
            PierSide::Unknown => "Unknown",
        }
    }

    /// The pier side whose text form is the given text, in any case.
    pub open spec fn spec_from_text(v: Seq<char>) -> Option<PierSide> {
        let lower = spec_ascii_lowercase(v);
        if lower == "east"@ {
            Some(PierSide::East)
        } else if lower == "west"@ {
            Some(PierSide::West)
        } else {
            None
        }
    }

    /// Reads a pier side from its text form, in any case; the error names the text.
    pub fn from_text(v: &str) -> (r: Result<PierSide, String>)
        ensures
            Self::spec_from_text(v@) matches Some(s) ==> r == Ok::<PierSide, String>(s),
            Self::spec_from_text(v@) is None ==> (r matches Err(m) && m@ == "unknown pier side: "@
                + "\""@ + v@ + "\""@),
    {
        if eq_ignore_ascii_case(v, "east") {
            Ok(PierSide::East)
        } else if eq_ignore_ascii_case(v, "west") {
            Ok(PierSide::West)
        } else {
            Err(quoted_after("unknown pier side: ", v))
        }
    }

    /// The pier side named by a parameter of the "set pier side" action: exactly
    /// "east" or "west".
    pub fn from_action_parameter(v: &str) -> (r: Option<PierSide>)
        ensures
            v@ == "east"@ ==> r == Some(PierSide::East),
            v@ == "west"@ ==> r == Some(PierSide::West),
            v@ != "east"@ && v@ != "west"@ ==> r is None,
    {
        proof {
            reveal_strlit("east");
            reveal_strlit("west");
            assert(("east"@)[0] != ("west"@)[0]);
        }
        if str_eq(v, "east") {
            Some(PierSide::East)
        } else if str_eq(v, "west") {
            Some(PierSide::West)
        } else {
            None
        }
    }
}

/// Reading the text form of a speed gives back the speed.
pub proof fn lemma_auto_guide_speed_round_trip(s: AutoGuideSpeed)
    ensures
        AutoGuideSpeed::spec_from_text(s.spec_name()) == Some(s),
{
    reveal_strlit("1/8");
    reveal_strlit("1/4");
    reveal_strlit("1/2");
    reveal_strlit("3/4");
    reveal_strlit("1");
    assert(spec_ascii_lowercase(s.spec_name()) =~= s.spec_name());
    assert(("1/8"@)[2] != ("1/4"@)[2]);
    assert(("1/8"@)[2] != ("1/2"@)[2]);
    assert(("1/4"@)[2] != ("1/2"@)[2]);
    assert(("1/8"@)[0] != ("3/4"@)[0]);
    assert(("1/4"@)[0] != ("3/4"@)[0]);
    assert(("1/2"@)[0] != ("3/4"@)[0]);
    assert("1"@.len() != "1/8"@.len());
    assert("1"@.len() != "1/4"@.len());
    assert("1"@.len() != "1/2"@.len());
    assert("1"@.len() != "3/4"@.len());
}

/// Reading the text form of a known pier side gives back the side, and a side
/// read from a text is written back as that text in lower case.
pub proof fn lemma_pier_side_round_trip(p: PierSide)
    requires
        p != PierSide::Unknown,
    ensures
        PierSide::spec_from_text(p.spec_name()) == Some(p),
        spec_ascii_lowercase(p.spec_name()) == (if p == PierSide::East { "east"@ } else { "west"@ }),
{
    reveal_strlit("East");
    reveal_strlit("West");
    reveal_strlit("east");
    reveal_strlit("west");
    assert(spec_ascii_lowercase("East"@) =~= "east"@);
    assert(spec_ascii_lowercase("West"@) =~= "west"@);
    assert(("east"@)[0] != ("west"@)[0]);
}

} // verus!
