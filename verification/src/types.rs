use vstd::prelude::*;

pub mod app;

verus! {

/// Which video encoder the external tool is asked to use.
#[derive(Clone, Copy, Debug, PartialEq, Eq, Structural)]
pub enum Encoder {
    CpuX264,
    GpuNvenc,
}

impl Default for Encoder {
    fn default() -> (e: Self)
        ensures
            e == Encoder::CpuX264,
    {
        Encoder::CpuX264
    }
}

impl Encoder {
    /// The encoder's identifier on the external tool's command line.
    pub open spec fn codec_spec(self) -> Seq<char> {
        match self {
            Encoder::CpuX264 => "libx264"@,
            Encoder::GpuNvenc => "h264_nvenc"@,
        }
    }

    pub fn codec_name(&self) -> (name: &'static str)
        ensures
            name@ == self.codec_spec(),
    {
        match self {
            Encoder::CpuX264 => "libx264",
            Encoder::GpuNvenc => "h264_nvenc",
        }
    }
}

/// Output height to scale to; the width follows from the aspect ratio.
#[derive(Clone, Copy, Debug, PartialEq, Eq, Structural)]
pub enum Resolution {
    R1080,
    R720,
    R480,
}

impl Resolution {
    pub open spec fn height(self) -> u32 {
        match self {
            Resolution::R1080 => 1080,
            Resolution::R720 => 720,
            Resolution::R480 => 480,
        }
    }

    /// The display label: the height followed by `p`.
    pub open spec fn label_spec(self) -> Seq<char> {
        match self {
            Resolution::R1080 => "1080p"@,
            Resolution::R720 => "720p"@,
            Resolution::R480 => "480p"@,
        }
    }

    pub fn to_height(&self) -> (h: u32)
        ensures
            h == self.height(),
    {
        match self {
            Resolution::R1080 => 1080,
            Resolution::R720 => 720,
            Resolution::R480 => 480,
        }
    }

    pub fn label(&self) -> (text: String)
        ensures
            text@ == self.label_spec(),
    {
        match self {
            Resolution::R1080 => "1080p".to_string(),
            Resolution::R720 => "720p".to_string(),
            Resolution::R480 => "480p".to_string(),
        }
    }
}

/// Encoder speed preset; `Unspecified` leaves the choice to the encoder.
#[derive(Clone, Copy, Debug, PartialEq, Eq, Structural)]
pub enum Preset {
    Unspecified,
    Ultrafast,
    Superfast,
    Veryfast,
    Faster,
    Fast,
    Medium,
    Slow,
    Slower,
    Veryslow,
}

impl Default for Preset {
    fn default() -> (p: Self)
        ensures
            p == Preset::Unspecified,
    {
        Preset::Unspecified
    }
}

impl Preset {
    /// The preset's name on the command line, absent for `Unspecified`.
    pub open spec fn name_spec(self) -> Option<Seq<char>> {
        match self {
            Preset::Unspecified => None,
            Preset::Ultrafast => Some("ultrafast"@),
            Preset::Superfast => Some("superfast"@),
            Preset::Veryfast => Some("veryfast"@),
            Preset::Faster => Some("faster"@),
            Preset::Fast => Some("fast"@),
            Preset::Medium => Some("medium"@),
            Preset::Slow => Some("slow"@),
            Preset::Slower => Some("slower"@),
            Preset::Veryslow => Some("veryslow"@),
        }
    }

    pub fn as_str(&self) -> (name: Option<&'static str>)
        ensures
            name is Some <==> self.name_spec() is Some,
            name is Some ==> name.unwrap()@ == self.name_spec().unwrap(),
            name is None <==> *self == Preset::Unspecified,
    {
        match self {
            Preset::Unspecified => None,
            Preset::Ultrafast => Some("ultrafast"),
            Preset::Superfast => Some("superfast"),
            Preset::Veryfast => Some("veryfast"),
            Preset::Faster => Some("faster"),
            Preset::Fast => Some("fast"),
            Preset::Medium => Some("medium"),
            Preset::Slow => Some("slow"),
            Preset::Slower => Some("slower"),
            Preset::Veryslow => Some("veryslow"),
        }
    }
}

} // verus!
