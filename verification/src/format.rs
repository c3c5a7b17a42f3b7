//! Output container formats and the muxer options they need.
use vstd::prelude::*;

use crate::text::{
    all_ascii, ascii_lowercase, concat2, copy_str, decimal, decimal_string, lowercase_of, str_eq,
    to_lowercase,
};

verus! {

/// Output container formats.
#[derive(Debug, Clone, Copy, PartialEq, Eq, Structural)]
pub enum OutputFormat {
    Mp4,
    Ts,
    Mkv,
    Flv,
    Mov,
    Nut,
    Aac,
    M4a,
    Mp3,
    Wav,
    Wma,
}

impl OutputFormat {
    /// The short name of the format (also its file extension).
    pub open spec fn spec_as_str(self) -> Seq<char> {
        match self {
            OutputFormat::Mp4 => "mp4"@,
            OutputFormat::Ts => "ts"@,
            OutputFormat::Mkv => "mkv"@,
            OutputFormat::Flv => "flv"@,
            OutputFormat::Mov => "mov"@,
            OutputFormat::Nut => "nut"@,
            OutputFormat::Aac => "aac"@,
            OutputFormat::M4a => "m4a"@,
            OutputFormat::Mp3 => "mp3"@,
            OutputFormat::Wav => "wav"@,
            OutputFormat::Wma => "wma"@,
        }
    }

    pub fn as_str(&self) -> (r: &'static str)
        ensures
            r@ == self.spec_as_str(),
    {
        match self {
            OutputFormat::Mp4 => "mp4",
            OutputFormat::Ts => "ts",
            OutputFormat::Mkv => "mkv",
            OutputFormat::Flv => "flv",
            OutputFormat::Mov => "mov",
            OutputFormat::Nut => "nut",
            OutputFormat::Aac => "aac",
            OutputFormat::M4a => "m4a",
            OutputFormat::Mp3 => "mp3",
            OutputFormat::Wav => "wav",
            OutputFormat::Wma => "wma",
        }
    }

    /// The file extension: the same as the short name.
    pub fn file_extension(&self) -> (r: &'static str)
        ensures
            r@ == self.spec_as_str(),
    {
        self.as_str()
    }

    /// The format whose short name is exactly `name`.
    pub fn from_name(name: &str) -> (r: Option<OutputFormat>)
        ensures
            match r {
                Some(f) => f.spec_as_str() == name@,
                None => forall|f: OutputFormat| #[trigger] f.spec_as_str() != name@,
            },
    {
        let all = [
            OutputFormat::Mp4,
            OutputFormat::Ts,
            OutputFormat::Mkv,
            OutputFormat::Flv,
            OutputFormat::Mov,
            OutputFormat::Nut,
            OutputFormat::Aac,
            OutputFormat::M4a,
            OutputFormat::Mp3,
            OutputFormat::Wav,
            OutputFormat::Wma,
        ];
        let n = all.len();
        for i in 0..n
            invariant
                n == all@.len(),
                all@ == seq![
                    OutputFormat::Mp4,
                    OutputFormat::Ts,
                    OutputFormat::Mkv,
                    OutputFormat::Flv,
                    OutputFormat::Mov,
                    OutputFormat::Nut,
                    OutputFormat::Aac,
                    OutputFormat::M4a,
                    OutputFormat::Mp3,
                    OutputFormat::Wav,
                    OutputFormat::Wma,
                ],
                forall|k: int| 0 <= k < i ==> (#[trigger] all@[k]).spec_as_str() != name@,
        {
            if str_eq(all[i].as_str(), name) {
                return Some(all[i]);
            }
        }
        assert forall|f: OutputFormat| #[trigger] f.spec_as_str() != name@ by {
            match f {
                OutputFormat::Mp4 => assert(all@[0] == f),
                OutputFormat::Ts => assert(all@[1] == f),
                OutputFormat::Mkv => assert(all@[2] == f),
                OutputFormat::Flv => assert(all@[3] == f),
                OutputFormat::Mov => assert(all@[4] == f),
                OutputFormat::Nut => assert(all@[5] == f),
                OutputFormat::Aac => assert(all@[6] == f),
                OutputFormat::M4a => assert(all@[7] == f),
                OutputFormat::Mp3 => assert(all@[8] == f),
                OutputFormat::Wav => assert(all@[9] == f),
                OutputFormat::Wma => assert(all@[10] == f),
            }
        }
        None
    }

    /// Parses a format name, ignoring case: the text is lower-cased and
    /// looked up with `from_name`; anything else is refused with the message
    /// `Unsupported format: <text>`.
    pub fn parse(s: &str) -> (r: Result<OutputFormat, String>)
        ensures
            all_ascii(s@) ==> lowercase_of(s@) == ascii_lowercase(s@),
            match r {
                Ok(f) => f.spec_as_str() == lowercase_of(s@),
                Err(e) => (forall|f: OutputFormat| #[trigger] f.spec_as_str() != lowercase_of(s@))
                    && e@ == "Unsupported format: "@ + s@,
            },
    {
        let lower = to_lowercase(s);
        match OutputFormat::from_name(lower.as_str()) {
            Some(f) => Ok(f),
            None => Err(concat2("Unsupported format: ", s)),
        }
    }
}

impl Default for OutputFormat {
    fn default() -> (r: OutputFormat)
        ensures
            r == OutputFormat::Mp4,
    {
        OutputFormat::Mp4
    }
}

impl core::str::FromStr for OutputFormat {
    type Err = String;

    fn from_str(s: &str) -> (r: Result<OutputFormat, String>)
        ensures
            all_ascii(s@) ==> lowercase_of(s@) == ascii_lowercase(s@),
            match r {
                Ok(f) => f.spec_as_str() == lowercase_of(s@),
                Err(e) => (forall|f: OutputFormat| #[trigger] f.spec_as_str() != lowercase_of(s@))
                    && e@ == "Unsupported format: "@ + s@,
            },
    {
        OutputFormat::parse(s)
    }
}

/// Distinct formats have distinct names.
pub proof fn lemma_format_name_injective(a: OutputFormat, b: OutputFormat)
    ensures
        a.spec_as_str() == b.spec_as_str() ==> a == b,
{
    reveal_strlit("mp4");
    reveal_strlit("ts");
    reveal_strlit("mkv");
    reveal_strlit("flv");
    reveal_strlit("mov");
    reveal_strlit("nut");
    reveal_strlit("aac");
    reveal_strlit("m4a");
    reveal_strlit("mp3");
    reveal_strlit("wav");
    reveal_strlit("wma");
    if a.spec_as_str() == b.spec_as_str() {
        assert(a.spec_as_str().len() == b.spec_as_str().len());
        assert(a.spec_as_str()[0] == b.spec_as_str()[0]);
        assert(a.spec_as_str()[1] == b.spec_as_str()[1]);
        if a.spec_as_str().len() > 2 {
            assert(a.spec_as_str()[2] == b.spec_as_str()[2]);
        }
    }
}

/// Parsing the name of a format gives back that format: the name is
/// lower-case ASCII, so lower-casing keeps it, and no other format shares it.
pub proof fn law_format_name_roundtrip(f: OutputFormat)
    ensures
        all_ascii(f.spec_as_str()),
        ascii_lowercase(f.spec_as_str()) == f.spec_as_str(),
        forall|g: OutputFormat| #[trigger] g.spec_as_str() == f.spec_as_str() ==> g == f,
{
    reveal_strlit("mp4");
    reveal_strlit("ts");
    reveal_strlit("mkv");
    reveal_strlit("flv");
    reveal_strlit("mov");
    reveal_strlit("nut");
    reveal_strlit("aac");
    reveal_strlit("m4a");
    reveal_strlit("mp3");
    reveal_strlit("wav");
    reveal_strlit("wma");
    assert(ascii_lowercase(f.spec_as_str()) =~= f.spec_as_str());
    assert forall|g: OutputFormat| #[trigger] g.spec_as_str() == f.spec_as_str() implies g
        == f by {
        lemma_format_name_injective(g, f);
    }
}

/// Muxer configuration of a recording.
#[derive(Debug, Clone)]
pub struct FormatConfig {
    pub format: OutputFormat,
    pub segment_record: bool,
    pub segment_time: u32,
    pub video_bitrate: Option<u32>,
    pub movflags: Option<String>,
    pub mpegts_flags: Option<String>,
}

/// The segment length used when none is configured.
pub const DEFAULT_SEGMENT_SECS: u32 = 1800;

/// The fragmented-mp4 flags used when none are configured.
pub open spec fn default_movflags() -> Seq<char> {
    "+frag_keyframe+empty_moov+default_base_moof"@
}

/// A list of option pairs by their views.
pub open spec fn pairs_view(v: Seq<(String, String)>) -> Seq<(Seq<char>, Seq<char>)> {
    v.map_values(|p: (String, String)| (p.0@, p.1@))
}

impl FormatConfig {
    /// The segment length in seconds: the configured one, or 1800 when it is 0.
    pub open spec fn spec_segment_secs(self) -> nat {
        if self.segment_time > 0 {
            self.segment_time as nat
        } else {
            DEFAULT_SEGMENT_SECS as nat
        }
    }

    /// The options of the segment muxer, in order.
    pub open spec fn spec_segment_pairs(self) -> Seq<(Seq<char>, Seq<char>)> {
        seq![
            ("format"@, "segment"@),
            ("segment_time"@, decimal(self.spec_segment_secs())),
            ("segment_start_number"@, "0"@),
            ("reset_timestamps"@, "1"@),
            ("strftime"@, "0"@),
            ("segment_format"@, self.format.spec_as_str()),
        ]
    }

    /// The header options, in order: the segment options when segmenting,
    /// then the `movflags` when the format is mp4.
    pub open spec fn spec_header_pairs(self) -> Seq<(Seq<char>, Seq<char>)> {
        let seg = if self.segment_record {
            seq![
                ("format"@, "segment"@),
                ("segment_time"@, decimal(self.spec_segment_secs())),
                ("segment_format"@, self.format.spec_as_str()),
                ("reset_timestamps"@, "1"@),
                ("strftime"@, "0"@),
            ]
        } else {
            Seq::empty()
        };
        let mov = if self.format == OutputFormat::Mp4 {
            seq![
                (
                    "movflags"@,
                    match self.movflags {
                        Some(m) => m@,
                        None => default_movflags(),
                    },
                ),
            ]
        } else {
            Seq::empty()
        };
        seg + mov
    }

    /// The options of the segment muxer, or `None` when not segmenting.
    pub fn segment_option_pairs(&self) -> (r: Option<Vec<(String, String)>>)
        ensures
            match r {
                None => !self.segment_record,
                Some(v) => self.segment_record && pairs_view(v@) == self.spec_segment_pairs(),
            },
    {
        if !self.segment_record {
            return None;
        }
        let seg_time = if self.segment_time > 0 {
            self.segment_time
        } else {
            DEFAULT_SEGMENT_SECS
        };
        let mut v: Vec<(String, String)> = Vec::new();
        v.push((copy_str("format"), copy_str("segment")));
        v.push((copy_str("segment_time"), decimal_string(seg_time as u64)));
        v.push((copy_str("segment_start_number"), copy_str("0")));
        v.push((copy_str("reset_timestamps"), copy_str("1")));
        v.push((copy_str("strftime"), copy_str("0")));
        v.push((copy_str("segment_format"), copy_str(self.format.as_str())));
        assert(pairs_view(v@) =~= self.spec_segment_pairs());
        Some(v)
    }

    /// The options for writing the header, or `None` when there are none.
    pub fn write_header_pairs(&self) -> (r: Option<Vec<(String, String)>>)
        ensures
            match r {
                None => self.spec_header_pairs().len() == 0,
                Some(v) => v@.len() > 0 && pairs_view(v@) == self.spec_header_pairs(),
            },
    {
        let mut v: Vec<(String, String)> = Vec::new();
        if self.segment_record {
            let seg_time = if self.segment_time > 0 {
                self.segment_time
            } else {
                DEFAULT_SEGMENT_SECS
            };
            v.push((copy_str("format"), copy_str("segment")));
            v.push((copy_str("segment_time"), decimal_string(seg_time as u64)));
            v.push((copy_str("segment_format"), copy_str(self.format.as_str())));
            v.push((copy_str("reset_timestamps"), copy_str("1")));
            v.push((copy_str("strftime"), copy_str("0")));
        }
        if self.format == OutputFormat::Mp4 {
            let flags = match &self.movflags {
                Some(m) => copy_str(m.as_str()),
                None => copy_str("+frag_keyframe+empty_moov+default_base_moof"),
            };
            v.push((copy_str("movflags"), flags));
        }
        assert(pairs_view(v@) =~= self.spec_header_pairs());
        if v.len() == 0 {
            None
        } else {
            Some(v)
        }
    }
}

impl Default for FormatConfig {
    fn default() -> (r: FormatConfig)
        ensures
            r.format == OutputFormat::Mp4,
            !r.segment_record,
            r.segment_time == 0,
            r.video_bitrate is None,
            r.movflags is None,
            r.mpegts_flags is None,
    {
        FormatConfig {
            format: OutputFormat::Mp4,
            segment_record: false,
            segment_time: 0,
            video_bitrate: None,
            movflags: None,
            mpegts_flags: None,
        }
    }
}

/// Holds the muxer configuration from which output contexts are built.
pub struct FormatBuilder {
    config: FormatConfig,
}

impl FormatBuilder {
    /// The configuration held.
    pub closed spec fn spec_config(self) -> FormatConfig {
        self.config
    }

    pub fn new(config: FormatConfig) -> (r: FormatBuilder)
        ensures
            r.spec_config() == config,
    {
        FormatBuilder { config }
    }

    pub fn config(&self) -> (r: &FormatConfig)
        ensures
            *r == self.spec_config(),
    {
        &self.config
    }
}

} // verus!
