//! Resolution of the audio format to request: an explicit format, or a
//! quality level looked up within a container's table of levels.

use vstd::prelude::*;

use crate::format::{AudioFormat, ContainerFormat, default_container};

verus! {

/// The quality level used when none is asked for.
pub const DEFAULT_QUALITY: i32 = 0;

/// The format that `quality` selects within container `c`, or `None` where the
/// container offers no such level.
pub open spec fn quality_table(c: ContainerFormat, quality: int) -> Option<AudioFormat> {
    match c {
        ContainerFormat::Wav => {
            if quality == -2 {
                Some(AudioFormat::Riff8Khz16BitMonoPcm)
            } else if quality == -1 {
                Some(AudioFormat::Riff16Khz16BitMonoPcm)
            } else if quality == 0 {
                Some(AudioFormat::Riff24Khz16BitMonoPcm)
            } else if quality == 1 {
                Some(AudioFormat::Riff24Khz16BitMonoPcm)
            } else {
                None
            }
        },
        ContainerFormat::Mp3 => {
            if quality == -4 {
                Some(AudioFormat::Audio16Khz32KBitRateMonoMp3)
            } else if quality == -3 {
                Some(AudioFormat::Audio16Khz64KBitRateMonoMp3)
            } else if quality == -2 {
                Some(AudioFormat::Audio16Khz128KBitRateMonoMp3)
            } else if quality == -1 {
                Some(AudioFormat::Audio24Khz48KBitRateMonoMp3)
            } else if quality == 0 {
                Some(AudioFormat::Audio24Khz96KBitRateMonoMp3)
            } else if quality == 1 {
                Some(AudioFormat::Audio24Khz160KBitRateMonoMp3)
            } else if quality == 2 {
                Some(AudioFormat::Audio48Khz96KBitRateMonoMp3)
            } else if quality == 3 {
                Some(AudioFormat::Audio48Khz192KBitRateMonoMp3)
            } else {
                None
            }
        },
        ContainerFormat::Ogg => {
            if quality == -1 {
                Some(AudioFormat::Ogg16Khz16BitMonoOpus)
            } else if quality == 0 {
                Some(AudioFormat::Ogg24Khz16BitMonoOpus)
            } else if quality == 1 {
                Some(AudioFormat::Ogg48Khz16BitMonoOpus)
            } else {
                None
            }
        },
        ContainerFormat::Webm => {
            if quality == -1 {
                Some(AudioFormat::Webm16Khz16BitMonoOpus)
            } else if quality == 0 {
                Some(AudioFormat::Webm24Khz16BitMonoOpus)
            } else if quality == 1 {
                Some(AudioFormat::Webm24Khz16Bit24KbpsMonoOpus)
            } else {
                None
            }
        },
    }
}

/// A quality level that the chosen container does not offer.
#[derive(Clone, Copy, Debug, PartialEq, Eq, Structural)]
pub struct InvalidQuality {
    pub quality: i32,
    pub container: ContainerFormat,
}

/// What resolution gives: the explicit format where there is one; otherwise
/// the table's entry for the container and level, each defaulted when absent.
pub open spec fn resolve_spec(
    explicit: Option<AudioFormat>,
    container: Option<ContainerFormat>,
    quality: Option<i32>,
) -> Result<AudioFormat, InvalidQuality> {
    match explicit {
        Some(f) => Ok(f),
        None => {
            let c = match container {
                Some(c) => c,
                None => default_container(),
            };
            let q = match quality {
                Some(q) => q,
                None => DEFAULT_QUALITY,
            };
            match quality_table(c, q as int) {
                Some(f) => Ok(f),
                None => Err(InvalidQuality { quality: q, container: c }),
            }
        },
    }
}

/// Looks `quality` up in the table of container `c`.
pub fn lookup_quality(c: ContainerFormat, quality: i32) -> (r: Option<AudioFormat>)
    ensures
        r == quality_table(c, quality as int),
{
    match c {
        ContainerFormat::Wav => match quality {
            -2 => Some(AudioFormat::Riff8Khz16BitMonoPcm),
            -1 => Some(AudioFormat::Riff16Khz16BitMonoPcm),
            0 => Some(AudioFormat::Riff24Khz16BitMonoPcm),
            1 => Some(AudioFormat::Riff24Khz16BitMonoPcm),
            _ => None,
        },
        ContainerFormat::Mp3 => match quality {
            -4 => Some(AudioFormat::Audio16Khz32KBitRateMonoMp3),
            -3 => Some(AudioFormat::Audio16Khz64KBitRateMonoMp3),
            -2 => Some(AudioFormat::Audio16Khz128KBitRateMonoMp3),
            -1 => Some(AudioFormat::Audio24Khz48KBitRateMonoMp3),
            0 => Some(AudioFormat::Audio24Khz96KBitRateMonoMp3),
            1 => Some(AudioFormat::Audio24Khz160KBitRateMonoMp3),
            2 => Some(AudioFormat::Audio48Khz96KBitRateMonoMp3),
            3 => Some(AudioFormat::Audio48Khz192KBitRateMonoMp3),
            _ => None,
        },
        ContainerFormat::Ogg => match quality {
            -1 => Some(AudioFormat::Ogg16Khz16BitMonoOpus),
            0 => Some(AudioFormat::Ogg24Khz16BitMonoOpus),
            1 => Some(AudioFormat::Ogg48Khz16BitMonoOpus),
            _ => None,
        },
        ContainerFormat::Webm => match quality {
            -1 => Some(AudioFormat::Webm16Khz16BitMonoOpus),
            0 => Some(AudioFormat::Webm24Khz16BitMonoOpus),
            1 => Some(AudioFormat::Webm24Khz16Bit24KbpsMonoOpus),
            _ => None,
        },
    }
}

/// Picks the format to request from the synthesis service.
///
/// An explicit format wins and is returned unchanged, whatever container and
/// level come with it. Otherwise the container defaults to wav and the level
/// to 0, and the level must be one that the container offers: there is no
/// nearest match.
pub fn resolve(
    explicit: Option<AudioFormat>,
    container: Option<ContainerFormat>,
    quality: Option<i32>,
) -> (r: Result<AudioFormat, InvalidQuality>)
    ensures
        r == resolve_spec(explicit, container, quality),
        explicit.is_some() ==> r == Ok::<AudioFormat, InvalidQuality>(explicit.unwrap()),
{
    match explicit {
        Some(f) => Ok(f),
        None => {
            let c = match container {
                Some(c) => c,
                None => ContainerFormat::default_container(),
            };
            let q = match quality {
                Some(q) => q,
                None => DEFAULT_QUALITY,
            };
            match lookup_quality(c, q) {
                Some(f) => Ok(f),
                None => Err(InvalidQuality { quality: q, container: c }),
            }
        },
    }
}

/// The levels that container `c` offers, from low to high.
pub open spec fn quality_levels(c: ContainerFormat) -> Seq<int> {
    match c {
        ContainerFormat::Wav => seq![-2int, -1, 0, 1],
        ContainerFormat::Mp3 => seq![-4int, -3, -2, -1, 0, 1, 2, 3],
        ContainerFormat::Ogg => seq![-1int, 0, 1],
        ContainerFormat::Webm => seq![-1int, 0, 1],
    }
}

/// The levels that container `c` offers, from low to high, each with the
/// format it selects.
pub fn qualities(c: ContainerFormat) -> (r: Vec<(i32, AudioFormat)>)
    ensures
        r@.len() == quality_levels(c).len(),
        forall|i: int|
            0 <= i < r@.len() ==> r@[i].0 as int == quality_levels(c)[i] && quality_table(c, r@[i].0 as int)
                == Some(r@[i].1),
{
    let levels: Vec<i32> = match c {
        ContainerFormat::Wav => vec![-2i32, -1, 0, 1],
        ContainerFormat::Mp3 => vec![-4i32, -3, -2, -1, 0, 1, 2, 3],
        ContainerFormat::Ogg => vec![-1i32, 0, 1],
        ContainerFormat::Webm => vec![-1i32, 0, 1],
    };
    assert(levels@.map_values(|q: i32| q as int) =~= quality_levels(c));
    let mut r: Vec<(i32, AudioFormat)> = Vec::new();
    let mut i: usize = 0;
    while i < levels.len()
        invariant
            levels@.map_values(|q: i32| q as int) == quality_levels(c),
            i <= levels@.len(),
            r@.len() == i,
            forall|j: int|
                0 <= j < i ==> r@[j].0 as int == quality_levels(c)[j] && quality_table(c, r@[j].0 as int) == Some(
                    r@[j].1,
                ),
        decreases levels@.len() - i,
    {
        let q = levels[i];
        assert(q as int == quality_levels(c)[i as int]);
        proof {
            lemma_levels_match_table(c, q);
        }
        let f = match lookup_quality(c, q) {
            Some(f) => f,
            None => {
                assert(false);
                AudioFormat::Riff24Khz16BitMonoPcm
            },
        };
        r.push((q, f));
        i = i + 1;
    }
    r
}

/// A container offers a level exactly when its list of levels holds it, and
/// that list runs strictly from low to high.
pub proof fn lemma_levels_match_table(c: ContainerFormat, quality: i32)
    ensures
        quality_table(c, quality as int).is_some() <==> quality_levels(c).contains(quality as int),
        forall|i: int, j: int|
            0 <= i < j < quality_levels(c).len() ==> quality_levels(c)[i] < quality_levels(c)[j],
{
    if quality_table(c, quality as int).is_some() {
        let levels = quality_levels(c);
        let k: int = match c {
            ContainerFormat::Wav => quality + 2,
            ContainerFormat::Mp3 => quality + 4,
            ContainerFormat::Ogg => quality + 1,
            ContainerFormat::Webm => quality + 1,
        };
        assert(levels[k] == quality as int);
    }
}

/// Every level that a container offers resolves, with that container and no
/// explicit format, to the format that the container's table gives for it.
pub proof fn lemma_resolve_listed(c: ContainerFormat, quality: i32)
    requires
        quality_table(c, quality as int).is_some(),
    ensures
        resolve_spec(None, Some(c), Some(quality)) == Ok::<AudioFormat, InvalidQuality>(
            quality_table(c, quality as int).unwrap(),
        ),
{
}

/// A level that a container does not offer fails, and the error names both
/// the level and the container.
pub proof fn lemma_resolve_unlisted(c: ContainerFormat, quality: i32)
    requires
        !quality_levels(c).contains(quality as int),
    ensures
        resolve_spec(None, Some(c), Some(quality)) == Err::<AudioFormat, InvalidQuality>(
            InvalidQuality { quality, container: c },
        ),
{
    lemma_levels_match_table(c, quality);
}

/// An explicit format is the result, whatever container and level come with it.
pub proof fn lemma_resolve_explicit(
    f: AudioFormat,
    container: Option<ContainerFormat>,
    quality: Option<i32>,
)
    ensures
        resolve_spec(Some(f), container, quality) == Ok::<AudioFormat, InvalidQuality>(f),
{
}

/// Resolution holds no state: two calls with the same arguments give the
/// same result.
pub proof fn lemma_resolve_repeatable(
    explicit: Option<AudioFormat>,
    container: Option<ContainerFormat>,
    quality: Option<i32>,
    first: Result<AudioFormat, InvalidQuality>,
    second: Result<AudioFormat, InvalidQuality>,
)
    requires
        first == resolve_spec(explicit, container, quality),
        second == resolve_spec(explicit, container, quality),
    ensures
        first == second,
{
}

} // verus!
