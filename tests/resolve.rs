use aspeak_cli::format::{AudioFormat, ContainerFormat};
use aspeak_cli::quality::{lookup_quality, qualities, resolve, InvalidQuality};

#[test]
fn every_listed_pair_resolves_to_its_format() {
    let table = [
        (ContainerFormat::Wav, -2, AudioFormat::Riff8Khz16BitMonoPcm),
        (ContainerFormat::Wav, -1, AudioFormat::Riff16Khz16BitMonoPcm),
        (ContainerFormat::Wav, 0, AudioFormat::Riff24Khz16BitMonoPcm),
        (ContainerFormat::Wav, 1, AudioFormat::Riff24Khz16BitMonoPcm),
        (ContainerFormat::Mp3, -4, AudioFormat::Audio16Khz32KBitRateMonoMp3),
        (ContainerFormat::Mp3, -3, AudioFormat::Audio16Khz64KBitRateMonoMp3),
        (ContainerFormat::Mp3, -2, AudioFormat::Audio16Khz128KBitRateMonoMp3),
        (ContainerFormat::Mp3, -1, AudioFormat::Audio24Khz48KBitRateMonoMp3),
        (ContainerFormat::Mp3, 0, AudioFormat::Audio24Khz96KBitRateMonoMp3),
        (ContainerFormat::Mp3, 1, AudioFormat::Audio24Khz160KBitRateMonoMp3),
        (ContainerFormat::Mp3, 2, AudioFormat::Audio48Khz96KBitRateMonoMp3),
        (ContainerFormat::Mp3, 3, AudioFormat::Audio48Khz192KBitRateMonoMp3),
        (ContainerFormat::Ogg, -1, AudioFormat::Ogg16Khz16BitMonoOpus),
        (ContainerFormat::Ogg, 0, AudioFormat::Ogg24Khz16BitMonoOpus),
        (ContainerFormat::Ogg, 1, AudioFormat::Ogg48Khz16BitMonoOpus),
        (ContainerFormat::Webm, -1, AudioFormat::Webm16Khz16BitMonoOpus),
        (ContainerFormat::Webm, 0, AudioFormat::Webm24Khz16BitMonoOpus),
        (ContainerFormat::Webm, 1, AudioFormat::Webm24Khz16Bit24KbpsMonoOpus),
    ];
    for (container, quality, format) in table {
        assert_eq!(resolve(None, Some(container), Some(quality)), Ok(format));
        assert_eq!(lookup_quality(container, quality), Some(format));
    }
}

#[test]
fn defaults_are_wav_at_level_zero() {
    assert_eq!(resolve(None, None, None), Ok(AudioFormat::Riff24Khz16BitMonoPcm));
    assert_eq!(resolve(None, Some(ContainerFormat::Mp3), None), Ok(AudioFormat::Audio24Khz96KBitRateMonoMp3));
    assert_eq!(resolve(None, None, Some(-2)), Ok(AudioFormat::Riff8Khz16BitMonoPcm));
}

#[test]
fn unlisted_level_names_level_and_container() {
    assert_eq!(
        resolve(None, Some(ContainerFormat::Wav), Some(2)),
        Err(InvalidQuality { quality: 2, container: ContainerFormat::Wav })
    );
    assert_eq!(
        resolve(None, Some(ContainerFormat::Ogg), Some(-2)),
        Err(InvalidQuality { quality: -2, container: ContainerFormat::Ogg })
    );
    assert_eq!(
        resolve(None, Some(ContainerFormat::Mp3), Some(4)),
        Err(InvalidQuality { quality: 4, container: ContainerFormat::Mp3 })
    );
    assert_eq!(
        resolve(None, None, Some(-3)),
        Err(InvalidQuality { quality: -3, container: ContainerFormat::Wav })
    );
}

#[test]
fn level_is_matched_exactly_not_truncated() {
    assert_eq!(
        resolve(None, Some(ContainerFormat::Webm), Some(256)),
        Err(InvalidQuality { quality: 256, container: ContainerFormat::Webm })
    );
    assert_eq!(
        resolve(None, Some(ContainerFormat::Mp3), Some(i32::MIN)),
        Err(InvalidQuality { quality: i32::MIN, container: ContainerFormat::Mp3 })
    );
}

#[test]
fn explicit_format_wins() {
    assert_eq!(
        resolve(Some(AudioFormat::Raw8Khz8BitMonoMULaw), Some(ContainerFormat::Wav), Some(99)),
        Ok(AudioFormat::Raw8Khz8BitMonoMULaw)
    );
    assert_eq!(resolve(Some(AudioFormat::Ogg48Khz16BitMonoOpus), None, None), Ok(AudioFormat::Ogg48Khz16BitMonoOpus));
    assert_eq!(
        resolve(Some(AudioFormat::AmrWb16000Hz), Some(ContainerFormat::Mp3), Some(3)),
        Ok(AudioFormat::AmrWb16000Hz)
    );
}

#[test]
fn resolving_twice_gives_the_same_result() {
    let a = resolve(None, Some(ContainerFormat::Mp3), Some(2));
    let b = resolve(None, Some(ContainerFormat::Mp3), Some(2));
    assert_eq!(a, b);
    let a = resolve(None, Some(ContainerFormat::Ogg), Some(7));
    let b = resolve(None, Some(ContainerFormat::Ogg), Some(7));
    assert_eq!(a, b);
}

#[test]
fn quality_listing_runs_low_to_high() {
    let wav = qualities(ContainerFormat::Wav);
    assert_eq!(
        wav,
        vec![
            (-2, AudioFormat::Riff8Khz16BitMonoPcm),
            (-1, AudioFormat::Riff16Khz16BitMonoPcm),
            (0, AudioFormat::Riff24Khz16BitMonoPcm),
            (1, AudioFormat::Riff24Khz16BitMonoPcm),
        ]
    );
    let levels: Vec<i32> = qualities(ContainerFormat::Mp3).iter().map(|p| p.0).collect();
    assert_eq!(levels, vec![-4, -3, -2, -1, 0, 1, 2, 3]);
    assert_eq!(qualities(ContainerFormat::Ogg).len(), 3);
    assert_eq!(qualities(ContainerFormat::Webm)[2], (1, AudioFormat::Webm24Khz16Bit24KbpsMonoOpus));
}

#[test]
fn container_names_and_order() {
    let names: Vec<&str> = ContainerFormat::all().iter().map(|c| c.name()).collect();
    assert_eq!(names, vec!["wav", "mp3", "ogg", "webm"]);
    assert_eq!(ContainerFormat::default_container(), ContainerFormat::Wav);
}

#[test]
fn invalid_level_error_carries_container_name() {
    let e = resolve(None, Some(ContainerFormat::Ogg), Some(3)).unwrap_err();
    assert_eq!(e.quality, 3);
    assert_eq!(e.container.name(), "ogg");
}
