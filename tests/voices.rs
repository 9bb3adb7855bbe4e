use aspeak_cli::voices::{default_locale, default_voice, voice_listed};

#[test]
fn default_locale_is_us_english() {
    assert_eq!(default_locale(), "en-US");
    assert_eq!(default_voice(default_locale()), Some("en-US-JennyNeural"));
}

#[test]
fn default_voice_per_locale() {
    assert_eq!(default_voice("af-ZA"), Some("af-ZA-AdriNeural"));
    assert_eq!(default_voice("fil-PH"), Some("fil-PH-AngeloNeural"));
    assert_eq!(default_voice("zh-CN"), Some("zh-CN-XiaoxiaoNeural"));
    assert_eq!(default_voice("zu-ZA"), Some("zu-ZA-ThandoNeural"));
    assert_eq!(default_voice("xx-XX"), None);
    assert_eq!(default_voice("en-us"), None);
    assert_eq!(default_voice(""), None);
}

#[test]
fn voice_listing_filters() {
    assert!(voice_listed("en-US", "en-US-JennyNeural", None, None));
    assert!(voice_listed("en-US", "en-US-JennyNeural", Some("en-US"), None));
    assert!(!voice_listed("en-GB", "en-GB-LibbyNeural", Some("en-US"), None));
    assert!(voice_listed("en-GB", "en-GB-LibbyNeural", None, Some("en-GB-LibbyNeural")));
    assert!(!voice_listed("en-GB", "en-GB-LibbyNeural", None, Some("en-US-JennyNeural")));
    // a requested locale takes precedence over a requested voice
    assert!(voice_listed("en-US", "en-US-GuyNeural", Some("en-US"), Some("en-GB-LibbyNeural")));
    assert!(!voice_listed("en-GB", "en-GB-LibbyNeural", Some("en-US"), Some("en-GB-LibbyNeural")));
}
