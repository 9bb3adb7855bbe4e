//! Choosing which voices of the service's voice list are shown, and the
//! locale that plain text is spoken in by default.

use vstd::prelude::*;

verus! {

/// The locale that plain text is spoken in when none is given.
pub open spec fn default_locale_spec() -> Seq<char> {
    seq!['e', 'n', '-', 'U', 'S']
}

/// The locale that plain text is spoken in when none is given.
pub fn default_locale() -> (r: &'static str)
    ensures
        r@ == default_locale_spec(),
{
    proof {
        reveal_strlit("en-US");
    }
    "en-US"
}

/// Whether two strings hold the same characters.
fn same_text(a: &str, b: &str) -> (r: bool)
    ensures
        r == (a@ == b@),
{
    a.to_owned() == b.to_owned()
}

/// Whether a voice with this locale and short name is listed: a requested
/// locale, when there is one, must match the voice's; otherwise a requested
/// voice name, when there is one, must match its short name; with neither
/// request every voice is listed.
pub open spec fn voice_listed_spec(
    locale: Seq<char>,
    short_name: Seq<char>,
    want_locale: Option<Seq<char>>,
    want_voice: Option<Seq<char>>,
) -> bool {
    match want_locale {
        Some(l) => locale == l,
        None => match want_voice {
            Some(v) => short_name == v,
            None => true,
        },
    }
}

/// The model of an optional string.
pub open spec fn opt_view(s: Option<&str>) -> Option<Seq<char>> {
    match s {
        Some(s) => Some(s@),
        None => None,
    }
}

/// Whether a voice with this locale and short name is listed, given the
/// locale and the voice name that were asked for.
pub fn voice_listed(
    locale: &str,
    short_name: &str,
    want_locale: Option<&str>,
    want_voice: Option<&str>,
) -> (r: bool)
    ensures
        r == voice_listed_spec(locale@, short_name@, opt_view(want_locale), opt_view(want_voice)),
{
    match want_locale {
        Some(l) => same_text(locale, l),
        None => match want_voice {
            Some(v) => same_text(short_name, v),
            None => true,
        },
    }
}

/// The voice that text in `locale` is spoken with when no voice is given,
/// where the locale has one.
pub open spec fn default_voice_spec(locale: Seq<char>) -> Option<Seq<char>> {
    if locale == "af-ZA"@ {
        Some("af-ZA-AdriNeural"@)
    } else if locale == "am-ET"@ {
        Some("am-ET-AmehaNeural"@)
    } else if locale == "ar-AE"@ {
        Some("ar-AE-FatimaNeural"@)
    } else if locale == "ar-BH"@ {
        Some("ar-BH-AliNeural"@)
    } else if locale == "ar-DZ"@ {
        Some("ar-DZ-AminaNeural"@)
    } else if locale == "ar-EG"@ {
        Some("ar-EG-SalmaNeural"@)
    } else if locale == "ar-IQ"@ {
        Some("ar-IQ-BasselNeural"@)
    } else if locale == "ar-JO"@ {
        Some("ar-JO-SanaNeural"@)
    } else if locale == "ar-KW"@ {
        Some("ar-KW-FahedNeural"@)
    } else if locale == "ar-LY"@ {
        Some("ar-LY-ImanNeural"@)
    } else if locale == "ar-MA"@ {
        Some("ar-MA-JamalNeural"@)
    } else if locale == "ar-QA"@ {
        Some("ar-QA-AmalNeural"@)
    } else if locale == "ar-SA"@ {
        Some("ar-SA-HamedNeural"@)
    } else if locale == "ar-SY"@ {
        Some("ar-SY-AmanyNeural"@)
    } else if locale == "ar-TN"@ {
        Some("ar-TN-HediNeural"@)
    } else if locale == "ar-YE"@ {
        Some("ar-YE-MaryamNeural"@)
    } else if locale == "bg-BG"@ {
        Some("bg-BG-BorislavNeural"@)
    } else if locale == "bn-BD"@ {
        Some("bn-BD-NabanitaNeural"@)
    } else if locale == "bn-IN"@ {
        Some("bn-IN-BashkarNeural"@)
    } else if locale == "ca-ES"@ {
        Some("ca-ES-JoanaNeural"@)
    } else if locale == "cs-CZ"@ {
        Some("cs-CZ-AntoninNeural"@)
    } else if locale == "cy-GB"@ {
        Some("cy-GB-AledNeural"@)
    } else if locale == "da-DK"@ {
        Some("da-DK-ChristelNeural"@)
    } else if locale == "de-AT"@ {
        Some("de-AT-IngridNeural"@)
    } else if locale == "de-CH"@ {
        Some("de-CH-JanNeural"@)
    } else if locale == "de-DE"@ {
        Some("de-DE-KatjaNeural"@)
    } else if locale == "el-GR"@ {
        Some("el-GR-AthinaNeural"@)
    } else if locale == "en-AU"@ {
        Some("en-AU-NatashaNeural"@)
    } else if locale == "en-CA"@ {
        Some("en-CA-ClaraNeural"@)
    } else if locale == "en-GB"@ {
        Some("en-GB-LibbyNeural"@)
    } else if locale == "en-HK"@ {
        Some("en-HK-SamNeural"@)
    } else if locale == "en-IE"@ {
        Some("en-IE-ConnorNeural"@)
    } else if locale == "en-IN"@ {
        Some("en-IN-NeerjaNeural"@)
    } else if locale == "en-KE"@ {
        Some("en-KE-AsiliaNeural"@)
    } else if locale == "en-NG"@ {
        Some("en-NG-AbeoNeural"@)
    } else if locale == "en-NZ"@ {
        Some("en-NZ-MitchellNeural"@)
    } else if locale == "en-PH"@ {
        Some("en-PH-JamesNeural"@)
    } else if locale == "en-SG"@ {
        Some("en-SG-LunaNeural"@)
    } else if locale == "en-TZ"@ {
        Some("en-TZ-ElimuNeural"@)
    } else if locale == "en-US"@ {
        Some("en-US-JennyNeural"@)
    } else if locale == "en-ZA"@ {
        Some("en-ZA-LeahNeural"@)
    } else if locale == "es-AR"@ {
        Some("es-AR-ElenaNeural"@)
    } else if locale == "es-BO"@ {
        Some("es-BO-MarceloNeural"@)
    } else if locale == "es-CL"@ {
        Some("es-CL-CatalinaNeural"@)
    } else if locale == "es-CO"@ {
        Some("es-CO-GonzaloNeural"@)
    } else if locale == "es-CR"@ {
        Some("es-CR-JuanNeural"@)
    } else if locale == "es-CU"@ {
        Some("es-CU-BelkysNeural"@)
    } else if locale == "es-DO"@ {
        Some("es-DO-EmilioNeural"@)
    } else if locale == "es-EC"@ {
        Some("es-EC-AndreaNeural"@)
    } else if locale == "es-ES"@ {
        Some("es-ES-AlvaroNeural"@)
    } else if locale == "es-GQ"@ {
        Some("es-GQ-JavierNeural"@)
    } else if locale == "es-GT"@ {
        Some("es-GT-AndresNeural"@)
    } else if locale == "es-HN"@ {
        Some("es-HN-CarlosNeural"@)
    } else if locale == "es-MX"@ {
        Some("es-MX-DaliaNeural"@)
    } else if locale == "es-NI"@ {
        Some("es-NI-FedericoNeural"@)
    } else if locale == "es-PA"@ {
        Some("es-PA-MargaritaNeural"@)
    } else if locale == "es-PE"@ {
        Some("es-PE-AlexNeural"@)
    } else if locale == "es-PR"@ {
        Some("es-PR-KarinaNeural"@)
    } else if locale == "es-PY"@ {
        Some("es-PY-MarioNeural"@)
    } else if locale == "es-SV"@ {
        Some("es-SV-LorenaNeural"@)
    } else if locale == "es-US"@ {
        Some("es-US-AlonsoNeural"@)
    } else if locale == "es-UY"@ {
        Some("es-UY-MateoNeural"@)
    } else if locale == "es-VE"@ {
        Some("es-VE-PaolaNeural"@)
    } else if locale == "et-EE"@ {
        Some("et-EE-AnuNeural"@)
    } else if locale == "fa-IR"@ {
        Some("fa-IR-DilaraNeural"@)
    } else if locale == "fi-FI"@ {
        Some("fi-FI-SelmaNeural"@)
    } else if locale == "fil-PH"@ {
        Some("fil-PH-AngeloNeural"@)
    } else if locale == "fr-BE"@ {
        Some("fr-BE-CharlineNeural"@)
    } else if locale == "fr-CA"@ {
        Some("fr-CA-SylvieNeural"@)
    } else if locale == "fr-CH"@ {
        Some("fr-CH-ArianeNeural"@)
    } else if locale == "fr-FR"@ {
        Some("fr-FR-DeniseNeural"@)
    } else if locale == "ga-IE"@ {
        Some("ga-IE-ColmNeural"@)
    } else if locale == "gl-ES"@ {
        Some("gl-ES-RoiNeural"@)
    } else if locale == "gu-IN"@ {
        Some("gu-IN-DhwaniNeural"@)
    } else if locale == "he-IL"@ {
        Some("he-IL-AvriNeural"@)
    } else if locale == "hi-IN"@ {
        Some("hi-IN-MadhurNeural"@)
    } else if locale == "hr-HR"@ {
        Some("hr-HR-GabrijelaNeural"@)
    } else if locale == "hu-HU"@ {
        Some("hu-HU-NoemiNeural"@)
    } else if locale == "id-ID"@ {
        Some("id-ID-ArdiNeural"@)
    } else if locale == "is-IS"@ {
        Some("is-IS-GudrunNeural"@)
    } else if locale == "it-IT"@ {
        Some("it-IT-IsabellaNeural"@)
    } else if locale == "ja-JP"@ {
        Some("ja-JP-NanamiNeural"@)
    } else if locale == "jv-ID"@ {
        Some("jv-ID-DimasNeural"@)
    } else if locale == "kk-KZ"@ {
        Some("kk-KZ-AigulNeural"@)
    } else if locale == "km-KH"@ {
        Some("km-KH-PisethNeural"@)
    } else if locale == "kn-IN"@ {
        Some("kn-IN-GaganNeural"@)
    } else if locale == "ko-KR"@ {
        Some("ko-KR-SunHiNeural"@)
    } else if locale == "lo-LA"@ {
        Some("lo-LA-ChanthavongNeural"@)
    } else if locale == "lt-LT"@ {
        Some("lt-LT-LeonasNeural"@)
    } else if locale == "lv-LV"@ {
        Some("lv-LV-EveritaNeural"@)
    } else if locale == "mk-MK"@ {
        Some("mk-MK-AleksandarNeural"@)
    } else if locale == "ml-IN"@ {
        Some("ml-IN-MidhunNeural"@)
    } else if locale == "mr-IN"@ {
        Some("mr-IN-AarohiNeural"@)
    } else if locale == "ms-MY"@ {
        Some("ms-MY-OsmanNeural"@)
    } else if locale == "mt-MT"@ {
        Some("mt-MT-GraceNeural"@)
    } else if locale == "my-MM"@ {
        Some("my-MM-NilarNeural"@)
    } else if locale == "nb-NO"@ {
        Some("nb-NO-PernilleNeural"@)
    } else if locale == "nl-BE"@ {
        Some("nl-BE-ArnaudNeural"@)
    } else if locale == "nl-NL"@ {
        Some("nl-NL-ColetteNeural"@)
    } else if locale == "pl-PL"@ {
        Some("pl-PL-AgnieszkaNeural"@)
    } else if locale == "ps-AF"@ {
        Some("ps-AF-GulNawazNeural"@)
    } else if locale == "pt-BR"@ {
        Some("pt-BR-FranciscaNeural"@)
    } else if locale == "pt-PT"@ {
        Some("pt-PT-DuarteNeural"@)
    } else if locale == "ro-RO"@ {
        Some("ro-RO-AlinaNeural"@)
    } else if locale == "ru-RU"@ {
        Some("ru-RU-SvetlanaNeural"@)
    } else if locale == "si-LK"@ {
        Some("si-LK-SameeraNeural"@)
    } else if locale == "sk-SK"@ {
        Some("sk-SK-LukasNeural"@)
    } else if locale == "sl-SI"@ {
        Some("sl-SI-PetraNeural"@)
    } else if locale == "so-SO"@ {
        Some("so-SO-MuuseNeural"@)
    } else if locale == "sr-RS"@ {
        Some("sr-RS-NicholasNeural"@)
    } else if locale == "su-ID"@ {
        Some("su-ID-JajangNeural"@)
    } else if locale == "sv-SE"@ {
        Some("sv-SE-SofieNeural"@)
    } else if locale == "sw-KE"@ {
        Some("sw-KE-RafikiNeural"@)
    } else if locale == "sw-TZ"@ {
        Some("sw-TZ-DaudiNeural"@)
    } else if locale == "ta-IN"@ {
        Some("ta-IN-PallaviNeural"@)
    } else if locale == "ta-LK"@ {
        Some("ta-LK-KumarNeural"@)
    } else if locale == "ta-SG"@ {
        Some("ta-SG-AnbuNeural"@)
    } else if locale == "te-IN"@ {
        Some("te-IN-MohanNeural"@)
    } else if locale == "th-TH"@ {
        Some("th-TH-PremwadeeNeural"@)
    } else if locale == "tr-TR"@ {
        Some("tr-TR-AhmetNeural"@)
    } else if locale == "uk-UA"@ {
        Some("uk-UA-OstapNeural"@)
    } else if locale == "ur-IN"@ {
        Some("ur-IN-GulNeural"@)
    } else if locale == "ur-PK"@ {
        Some("ur-PK-AsadNeural"@)
    } else if locale == "uz-UZ"@ {
        Some("uz-UZ-MadinaNeural"@)
    } else if locale == "vi-VN"@ {
        Some("vi-VN-HoaiMyNeural"@)
    } else if locale == "zh-CN"@ {
        Some("zh-CN-XiaoxiaoNeural"@)
    } else if locale == "zh-HK"@ {
        Some("zh-HK-HiuMaanNeural"@)
    } else if locale == "zh-TW"@ {
        Some("zh-TW-HsiaoChenNeural"@)
    } else if locale == "zu-ZA"@ {
        Some("zu-ZA-ThandoNeural"@)
    } else {
        None
    }
}

/// The voice that text in `locale` is spoken with when no voice is given,
/// where the locale has one.
pub fn default_voice(locale: &str) -> (r: Option<&'static str>)
    ensures
        opt_view(r) == default_voice_spec(locale@),
{
    if same_text(locale, "af-ZA") {
        Some("af-ZA-AdriNeural")
    } else if same_text(locale, "am-ET") {
        Some("am-ET-AmehaNeural")
    } else if same_text(locale, "ar-AE") {
        Some("ar-AE-FatimaNeural")
    } else if same_text(locale, "ar-BH") {
        Some("ar-BH-AliNeural")
    } else if same_text(locale, "ar-DZ") {
        Some("ar-DZ-AminaNeural")
    } else if same_text(locale, "ar-EG") {
        Some("ar-EG-SalmaNeural")
    } else if same_text(locale, "ar-IQ") {
        Some("ar-IQ-BasselNeural")
    } else if same_text(locale, "ar-JO") {
        Some("ar-JO-SanaNeural")
    } else if same_text(locale, "ar-KW") {
        Some("ar-KW-FahedNeural")
    } else if same_text(locale, "ar-LY") {
        Some("ar-LY-ImanNeural")
    } else if same_text(locale, "ar-MA") {
        Some("ar-MA-JamalNeural")
    } else if same_text(locale, "ar-QA") {
        Some("ar-QA-AmalNeural")
    } else if same_text(locale, "ar-SA") {
        Some("ar-SA-HamedNeural")
    } else if same_text(locale, "ar-SY") {
        Some("ar-SY-AmanyNeural")
    } else if same_text(locale, "ar-TN") {
        Some("ar-TN-HediNeural")
    } else if same_text(locale, "ar-YE") {
        Some("ar-YE-MaryamNeural")
    } else if same_text(locale, "bg-BG") {
        Some("bg-BG-BorislavNeural")
    } else if same_text(locale, "bn-BD") {
        Some("bn-BD-NabanitaNeural")
    } else if same_text(locale, "bn-IN") {
        Some("bn-IN-BashkarNeural")
    } else if same_text(locale, "ca-ES") {
        Some("ca-ES-JoanaNeural")
    } else if same_text(locale, "cs-CZ") {
        Some("cs-CZ-AntoninNeural")
    } else if same_text(locale, "cy-GB") {
        Some("cy-GB-AledNeural")
    } else if same_text(locale, "da-DK") {
        Some("da-DK-ChristelNeural")
    } else if same_text(locale, "de-AT") {
        Some("de-AT-IngridNeural")
    } else if same_text(locale, "de-CH") {
        Some("de-CH-JanNeural")
    } else if same_text(locale, "de-DE") {
        Some("de-DE-KatjaNeural")
    } else if same_text(locale, "el-GR") {
        Some("el-GR-AthinaNeural")
    } else if same_text(locale, "en-AU") {
        Some("en-AU-NatashaNeural")
    } else if same_text(locale, "en-CA") {
        Some("en-CA-ClaraNeural")
    } else if same_text(locale, "en-GB") {
        Some("en-GB-LibbyNeural")
    } else if same_text(locale, "en-HK") {
        Some("en-HK-SamNeural")
    } else if same_text(locale, "en-IE") {
        Some("en-IE-ConnorNeural")
    } else if same_text(locale, "en-IN") {
        Some("en-IN-NeerjaNeural")
    } else if same_text(locale, "en-KE") {
        Some("en-KE-AsiliaNeural")
    } else if same_text(locale, "en-NG") {
        Some("en-NG-AbeoNeural")
    } else if same_text(locale, "en-NZ") {
        Some("en-NZ-MitchellNeural")
    } else if same_text(locale, "en-PH") {
        Some("en-PH-JamesNeural")
    } else if same_text(locale, "en-SG") {
        Some("en-SG-LunaNeural")
    } else if same_text(locale, "en-TZ") {
        Some("en-TZ-ElimuNeural")
    } else if same_text(locale, "en-US") {
        Some("en-US-JennyNeural")
    } else if same_text(locale, "en-ZA") {
        Some("en-ZA-LeahNeural")
    } else if same_text(locale, "es-AR") {
        Some("es-AR-ElenaNeural")
    } else if same_text(locale, "es-BO") {
        Some("es-BO-MarceloNeural")
    } else if same_text(locale, "es-CL") {
        Some("es-CL-CatalinaNeural")
    } else if same_text(locale, "es-CO") {
        Some("es-CO-GonzaloNeural")
    } else if same_text(locale, "es-CR") {
        Some("es-CR-JuanNeural")
    } else if same_text(locale, "es-CU") {
        Some("es-CU-BelkysNeural")
    } else if same_text(locale, "es-DO") {
        Some("es-DO-EmilioNeural")
    } else if same_text(locale, "es-EC") {
        Some("es-EC-AndreaNeural")
    } else if same_text(locale, "es-ES") {
        Some("es-ES-AlvaroNeural")
    } else if same_text(locale, "es-GQ") {
        Some("es-GQ-JavierNeural")
    } else if same_text(locale, "es-GT") {
        Some("es-GT-AndresNeural")
    } else if same_text(locale, "es-HN") {
        Some("es-HN-CarlosNeural")
    } else if same_text(locale, "es-MX") {
        Some("es-MX-DaliaNeural")
    } else if same_text(locale, "es-NI") {
        Some("es-NI-FedericoNeural")
    } else if same_text(locale, "es-PA") {
        Some("es-PA-MargaritaNeural")
    } else if same_text(locale, "es-PE") {
        Some("es-PE-AlexNeural")
    } else if same_text(locale, "es-PR") {
        Some("es-PR-KarinaNeural")
    } else if same_text(locale, "es-PY") {
        Some("es-PY-MarioNeural")
    } else if same_text(locale, "es-SV") {
        Some("es-SV-LorenaNeural")
    } else if same_text(locale, "es-US") {
        Some("es-US-AlonsoNeural")
    } else if same_text(locale, "es-UY") {
        Some("es-UY-MateoNeural")
    } else if same_text(locale, "es-VE") {
        Some("es-VE-PaolaNeural")
    } else if same_text(locale, "et-EE") {
        Some("et-EE-AnuNeural")
    } else if same_text(locale, "fa-IR") {
        Some("fa-IR-DilaraNeural")
    } else if same_text(locale, "fi-FI") {
        Some("fi-FI-SelmaNeural")
    } else if same_text(locale, "fil-PH") {
        Some("fil-PH-AngeloNeural")
    } else if same_text(locale, "fr-BE") {
        Some("fr-BE-CharlineNeural")
    } else if same_text(locale, "fr-CA") {
        Some("fr-CA-SylvieNeural")
    } else if same_text(locale, "fr-CH") {
        Some("fr-CH-ArianeNeural")
    } else if same_text(locale, "fr-FR") {
        Some("fr-FR-DeniseNeural")
    } else if same_text(locale, "ga-IE") {
        Some("ga-IE-ColmNeural")
    } else if same_text(locale, "gl-ES") {
        Some("gl-ES-RoiNeural")
    } else if same_text(locale, "gu-IN") {
        Some("gu-IN-DhwaniNeural")
    } else if same_text(locale, "he-IL") {
        Some("he-IL-AvriNeural")
    } else if same_text(locale, "hi-IN") {
        Some("hi-IN-MadhurNeural")
    } else if same_text(locale, "hr-HR") {
        Some("hr-HR-GabrijelaNeural")
    } else if same_text(locale, "hu-HU") {
        Some("hu-HU-NoemiNeural")
    } else if same_text(locale, "id-ID") {
        Some("id-ID-ArdiNeural")
    } else if same_text(locale, "is-IS") {
        Some("is-IS-GudrunNeural")
    } else if same_text(locale, "it-IT") {
        Some("it-IT-IsabellaNeural")
    } else if same_text(locale, "ja-JP") {
        Some("ja-JP-NanamiNeural")
    } else if same_text(locale, "jv-ID") {
        Some("jv-ID-DimasNeural")
    } else if same_text(locale, "kk-KZ") {
        Some("kk-KZ-AigulNeural")
    } else if same_text(locale, "km-KH") {
        Some("km-KH-PisethNeural")
    } else if same_text(locale, "kn-IN") {
        Some("kn-IN-GaganNeural")
    } else if same_text(locale, "ko-KR") {
        Some("ko-KR-SunHiNeural")
    } else if same_text(locale, "lo-LA") {
        Some("lo-LA-ChanthavongNeural")
    } else if same_text(locale, "lt-LT") {
        Some("lt-LT-LeonasNeural")
    } else if same_text(locale, "lv-LV") {
        Some("lv-LV-EveritaNeural")
    } else if same_text(locale, "mk-MK") {
        Some("mk-MK-AleksandarNeural")
    } else if same_text(locale, "ml-IN") {
        Some("ml-IN-MidhunNeural")
    } else if same_text(locale, "mr-IN") {
        Some("mr-IN-AarohiNeural")
    } else if same_text(locale, "ms-MY") {
        Some("ms-MY-OsmanNeural")
    } else if same_text(locale, "mt-MT") {
        Some("mt-MT-GraceNeural")
    } else if same_text(locale, "my-MM") {
        Some("my-MM-NilarNeural")
    } else if same_text(locale, "nb-NO") {
        Some("nb-NO-PernilleNeural")
    } else if same_text(locale, "nl-BE") {
        Some("nl-BE-ArnaudNeural")
    } else if same_text(locale, "nl-NL") {
        Some("nl-NL-ColetteNeural")
    } else if same_text(locale, "pl-PL") {
        Some("pl-PL-AgnieszkaNeural")
    } else if same_text(locale, "ps-AF") {
        Some("ps-AF-GulNawazNeural")
    } else if same_text(locale, "pt-BR") {
        Some("pt-BR-FranciscaNeural")
    } else if same_text(locale, "pt-PT") {
        Some("pt-PT-DuarteNeural")
    } else if same_text(locale, "ro-RO") {
        Some("ro-RO-AlinaNeural")
    } else if same_text(locale, "ru-RU") {
        Some("ru-RU-SvetlanaNeural")
    } else if same_text(locale, "si-LK") {
        Some("si-LK-SameeraNeural")
    } else if same_text(locale, "sk-SK") {
        Some("sk-SK-LukasNeural")
    } else if same_text(locale, "sl-SI") {
        Some("sl-SI-PetraNeural")
    } else if same_text(locale, "so-SO") {
        Some("so-SO-MuuseNeural")
    } else if same_text(locale, "sr-RS") {
        Some("sr-RS-NicholasNeural")
    } else if same_text(locale, "su-ID") {
        Some("su-ID-JajangNeural")
    } else if same_text(locale, "sv-SE") {
        Some("sv-SE-SofieNeural")
    } else if same_text(locale, "sw-KE") {
        Some("sw-KE-RafikiNeural")
    } else if same_text(locale, "sw-TZ") {
        Some("sw-TZ-DaudiNeural")
    } else if same_text(locale, "ta-IN") {
        Some("ta-IN-PallaviNeural")
    } else if same_text(locale, "ta-LK") {
        Some("ta-LK-KumarNeural")
    } else if same_text(locale, "ta-SG") {
        Some("ta-SG-AnbuNeural")
    } else if same_text(locale, "te-IN") {
        Some("te-IN-MohanNeural")
    } else if same_text(locale, "th-TH") {
        Some("th-TH-PremwadeeNeural")
    } else if same_text(locale, "tr-TR") {
        Some("tr-TR-AhmetNeural")
    } else if same_text(locale, "uk-UA") {
        Some("uk-UA-OstapNeural")
    } else if same_text(locale, "ur-IN") {
        Some("ur-IN-GulNeural")
    } else if same_text(locale, "ur-PK") {
        Some("ur-PK-AsadNeural")
    } else if same_text(locale, "uz-UZ") {
        Some("uz-UZ-MadinaNeural")
    } else if same_text(locale, "vi-VN") {
        Some("vi-VN-HoaiMyNeural")
    } else if same_text(locale, "zh-CN") {
        Some("zh-CN-XiaoxiaoNeural")
    } else if same_text(locale, "zh-HK") {
        Some("zh-HK-HiuMaanNeural")
    } else if same_text(locale, "zh-TW") {
        Some("zh-TW-HsiaoChenNeural")
    } else if same_text(locale, "zu-ZA") {
        Some("zu-ZA-ThandoNeural")
    } else {
        None
    }
}

} // verus!
