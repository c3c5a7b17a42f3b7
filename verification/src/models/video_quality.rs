//! Video quality presets.
use vstd::prelude::*;

use crate::text::{all_ascii, ascii_uppercase, concat2, str_eq, to_uppercase, uppercase_of};

verus! {

/// Quality presets, best first.
#[derive(Debug, Clone, Copy, PartialEq, Eq, Hash, Structural)]
pub enum VideoQuality {
    OD,
    BD,
    UHD,
    HD,
    SD,
    LD,
}

impl VideoQuality {
    /// The code of the preset.
    pub open spec fn spec_as_str(self) -> Seq<char> {
        match self {
            VideoQuality::OD => "OD"@,
            VideoQuality::BD => "BD"@,
            VideoQuality::UHD => "UHD"@,
            VideoQuality::HD => "HD"@,
            VideoQuality::SD => "SD"@,
            VideoQuality::LD => "LD"@,
        }
    }

    /// The user-facing name of the preset.
    pub open spec fn spec_description(self) -> Seq<char> {
        match self {
            VideoQuality::OD => "原画"@,
            VideoQuality::BD => "蓝光"@,
            VideoQuality::UHD => "超清"@,
            VideoQuality::HD => "高清"@,
            VideoQuality::SD => "标清"@,
            VideoQuality::LD => "流畅"@,
        }
    }

    pub fn as_str(&self) -> (r: &'static str)
        ensures
            r@ == self.spec_as_str(),
    {
        match self {
            VideoQuality::OD => "OD",
            VideoQuality::BD => "BD",
            VideoQuality::UHD => "UHD",
            VideoQuality::HD => "HD",
            VideoQuality::SD => "SD",
            VideoQuality::LD => "LD",
        }
    }

    pub fn description(&self) -> (r: &'static str)
        ensures
            r@ == self.spec_description(),
    {
        match self {
            VideoQuality::OD => "原画",
            VideoQuality::BD => "蓝光",
            VideoQuality::UHD => "超清",
            VideoQuality::HD => "高清",
            VideoQuality::SD => "标清",
            VideoQuality::LD => "流畅",
        }
    }

    /// The preset whose code is exactly `code`.
    pub fn from_code(code: &str) -> (r: Option<VideoQuality>)
        ensures
            match r {
                Some(q) => q.spec_as_str() == code@,
                None => forall|q: VideoQuality| #[trigger] q.spec_as_str() != code@,
            },
    {
        if str_eq(code, "OD") {
            Some(VideoQuality::OD)
        } else if str_eq(code, "BD") {
            Some(VideoQuality::BD)
        } else if str_eq(code, "UHD") {
            Some(VideoQuality::UHD)
        } else if str_eq(code, "HD") {
            Some(VideoQuality::HD)
        } else if str_eq(code, "SD") {
            Some(VideoQuality::SD)
        } else if str_eq(code, "LD") {
            Some(VideoQuality::LD)
        } else {
            assert forall|q: VideoQuality| #[trigger] q.spec_as_str() != code@ by {
                match q {
                    VideoQuality::OD => {},
                    VideoQuality::BD => {},
                    VideoQuality::UHD => {},
                    VideoQuality::HD => {},
                    VideoQuality::SD => {},
                    VideoQuality::LD => {},
                }
            }
            None
        }
    }

    /// Parses a preset code, ignoring case: the text is upper-cased and
    /// looked up with `from_code`; anything else is refused with the message
    /// `Unknown quality: <text>`.
    pub fn parse(s: &str) -> (r: Result<VideoQuality, String>)
        ensures
            all_ascii(s@) ==> uppercase_of(s@) == ascii_uppercase(s@),
            match r {
                Ok(q) => q.spec_as_str() == uppercase_of(s@),
                Err(e) => (forall|q: VideoQuality| #[trigger] q.spec_as_str() != uppercase_of(s@))
                    && e@ == "Unknown quality: "@ + s@,
            },
    {
        let upper = to_uppercase(s);
        match VideoQuality::from_code(upper.as_str()) {
            Some(q) => Ok(q),
            None => Err(concat2("Unknown quality: ", s)),
        }
    }
}

/// Distinct presets have distinct codes.
pub proof fn lemma_quality_code_injective(a: VideoQuality, b: VideoQuality)
    ensures
        a.spec_as_str() == b.spec_as_str() ==> a == b,
{
    reveal_strlit("OD");
    reveal_strlit("BD");
    reveal_strlit("UHD");
    reveal_strlit("HD");
    reveal_strlit("SD");
    reveal_strlit("LD");
    if a.spec_as_str() == b.spec_as_str() {
        assert(a.spec_as_str().len() == b.spec_as_str().len());
        assert(a.spec_as_str()[0] == b.spec_as_str()[0]);
        assert(a.spec_as_str()[1] == b.spec_as_str()[1]);
    }
}

/// Parsing the code of a preset gives back that preset: the code is
/// upper-case ASCII, so upper-casing keeps it, and no other preset shares it.
pub proof fn law_quality_code_roundtrip(q: VideoQuality)
    ensures
        all_ascii(q.spec_as_str()),
        ascii_uppercase(q.spec_as_str()) == q.spec_as_str(),
        forall|p: VideoQuality| #[trigger] p.spec_as_str() == q.spec_as_str() ==> p == q,
{
    reveal_strlit("OD");
    reveal_strlit("BD");
    reveal_strlit("UHD");
    reveal_strlit("HD");
    reveal_strlit("SD");
    reveal_strlit("LD");
    assert(ascii_uppercase(q.spec_as_str()) =~= q.spec_as_str());
    assert forall|p: VideoQuality| #[trigger] p.spec_as_str() == q.spec_as_str() implies p
        == q by {
        lemma_quality_code_injective(p, q);
    }
}

impl core::str::FromStr for VideoQuality {
    type Err = String;

    fn from_str(s: &str) -> (r: Result<VideoQuality, String>)
        ensures
            all_ascii(s@) ==> uppercase_of(s@) == ascii_uppercase(s@),
            match r {
                Ok(q) => q.spec_as_str() == uppercase_of(s@),
                Err(e) => (forall|q: VideoQuality| #[trigger] q.spec_as_str() != uppercase_of(s@))
                    && e@ == "Unknown quality: "@ + s@,
            },
    {
        VideoQuality::parse(s)
    }
}

} // verus!
