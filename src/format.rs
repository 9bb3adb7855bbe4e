//! The audio formats understood by the synthesis service, and the container
//! families that a quality level is chosen within.

use vstd::prelude::*;

verus! {

/// One fully specified encoding (sample rate, bit depth, channels, bitrate,
/// container) that the synthesis service can produce.
#[derive(Clone, Copy, Debug, PartialEq, Eq, Structural, Hash)]
pub enum AudioFormat {
    AmrWb16000Hz,
    Audio16Khz128KBitRateMonoMp3,
    Audio16Khz16Bit32KbpsMonoOpus,
    Audio16Khz32KBitRateMonoMp3,
    Audio16Khz64KBitRateMonoMp3,
    Audio24Khz160KBitRateMonoMp3,
    Audio24Khz16Bit24KbpsMonoOpus,
    Audio24Khz16Bit48KbpsMonoOpus,
    Audio24Khz48KBitRateMonoMp3,
    Audio24Khz96KBitRateMonoMp3,
    Audio48Khz192KBitRateMonoMp3,
    Audio48Khz96KBitRateMonoMp3,
    Ogg16Khz16BitMonoOpus,
    Ogg24Khz16BitMonoOpus,
    Ogg48Khz16BitMonoOpus,
    Raw16Khz16BitMonoPcm,
    Raw16Khz16BitMonoTrueSilk,
    Raw22050Hz16BitMonoPcm,
    Raw24Khz16BitMonoPcm,
    Raw24Khz16BitMonoTrueSilk,
    Raw44100Hz16BitMonoPcm,
    Raw48Khz16BitMonoPcm,
    Raw8Khz16BitMonoPcm,
    Raw8Khz8BitMonoALaw,
    Raw8Khz8BitMonoMULaw,
    Riff16Khz16BitMonoPcm,
    Riff22050Hz16BitMonoPcm,
    Riff24Khz16BitMonoPcm,
    Riff44100Hz16BitMonoPcm,
    Riff48Khz16BitMonoPcm,
    Riff8Khz16BitMonoPcm,
    Riff8Khz8BitMonoALaw,
    Riff8Khz8BitMonoMULaw,
    Webm16Khz16BitMonoOpus,
    Webm24Khz16Bit24KbpsMonoOpus,
    Webm24Khz16BitMonoOpus,
}

/// The container families that quality levels are offered for.
#[derive(Clone, Copy, Debug, PartialEq, Eq, Structural, Hash)]
pub enum ContainerFormat {
    Wav,
    Mp3,
    Ogg,
    Webm,
}

/// The container used when none is asked for.
pub open spec fn default_container() -> ContainerFormat {
    ContainerFormat::Wav
}

/// The lower-case name of a container, as the command line spells it.
pub open spec fn container_name_spec(c: ContainerFormat) -> Seq<char> {
    match c {
        ContainerFormat::Wav => seq!['w', 'a', 'v'],
        ContainerFormat::Mp3 => seq!['m', 'p', '3'],
        ContainerFormat::Ogg => seq!['o', 'g', 'g'],
        ContainerFormat::Webm => seq!['w', 'e', 'b', 'm'],
    }
}

impl ContainerFormat {
    /// Every container, in the order in which they are listed.
    pub open spec fn all_spec() -> Seq<ContainerFormat> {
        seq![ContainerFormat::Wav, ContainerFormat::Mp3, ContainerFormat::Ogg, ContainerFormat::Webm]
    }

    /// Every container, in the order in which they are listed.
    pub fn all() -> (r: Vec<ContainerFormat>)
        ensures
            r@ == Self::all_spec(),
    {
        let r = vec![ContainerFormat::Wav, ContainerFormat::Mp3, ContainerFormat::Ogg, ContainerFormat::Webm];
        assert(r@ =~= Self::all_spec());
        r
    }

    /// The container used when none is asked for.
    pub fn default_container() -> (r: ContainerFormat)
        ensures
            r == default_container(),
    {
        ContainerFormat::Wav
    }

    /// The lower-case name of the container.
    pub fn name(&self) -> (r: &'static str)
        ensures
            r@ == container_name_spec(*self),
    {
        proof {
            reveal_strlit("wav");
            reveal_strlit("mp3");
            reveal_strlit("ogg");
            reveal_strlit("webm");
        }
        match self {
            ContainerFormat::Wav => "wav",
            ContainerFormat::Mp3 => "mp3",
            ContainerFormat::Ogg => "ogg",
            ContainerFormat::Webm => "webm",
        }
    }
}

} // verus!
