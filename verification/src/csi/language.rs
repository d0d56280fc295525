//! Language detection among a set of candidate languages.
use vstd::prelude::*;

verus! {

/// A language, by its three-letter code.
///
/// The set is closed: the host and the skill share it, and a code outside it
/// has no value here.
#[derive(Clone, Copy, Debug, PartialEq, Eq)]
pub enum LanguageCode {
    /// Afrikaans
    Afr,
    /// Arabic
    Ara,
    /// Azerbaijani
    Aze,
    /// Belarusian
    Bel,
    /// Bengali
    Ben,
    /// Bosnian
    Bos,
    /// Bulgarian
    Bul,
    /// Catalan
    Cat,
    /// Czech
    Ces,
    /// Welsh
    Cym,
    /// Danish
    Dan,
    /// German
    Deu,
    /// Greek
    Ell,
    /// English
    Eng,
    /// Esperanto
    Epo,
    /// Estonian
    Est,
    /// Basque
    Eus,
    /// Persian
    Fas,
    /// Finnish
    Fin,
    /// French
    Fra,
    /// Irish
    Gle,
    /// Gujarati
    Guj,
    /// Hebrew
    Heb,
    /// Hindi
    Hin,
    /// Croatian
    Hrv,
    /// Hungarian
    Hun,
    /// Armenian
    Hye,
    /// Indonesian
    Ind,
    /// Icelandic
    Isl,
    /// Italian
    Ita,
    /// Japanese
    Jpn,
    /// Georgian
    Kat,
    /// Kazakh
    Kaz,
    /// Korean
    Kor,
    /// Latin
    Lat,
    /// Latvian
    Lav,
    /// Lithuanian
    Lit,
    /// Ganda
    Lug,
    /// Marathi
    Mar,
    /// Macedonian
    Mkd,
    /// Mongolian
    Mon,
    /// Maori
    Mri,
    /// Malay
    Msa,
    /// Dutch
    Nld,
    /// Norwegian Nynorsk
    Nno,
    /// Norwegian Bokmal
    Nob,
    /// Punjabi
    Pan,
    /// Polish
    Pol,
    /// Portuguese
    Por,
    /// Romanian
    Ron,
    /// Russian
    Rus,
    /// Slovak
    Slk,
    /// Slovene
    Slv,
    /// Shona
    Sna,
    /// Somali
    Som,
    /// Sotho
    Sot,
    /// Spanish
    Spa,
    /// Serbian
    Srp,
    /// Albanian
    Sqi,
    /// Swahili
    Swa,
    /// Swedish
    Swe,
    /// Tamil
    Tam,
    /// Telugu
    Tel,
    /// Tagalog
    Tgl,
    /// Thai
    Tha,
    /// Tswana
    Tsn,
    /// Tsonga
    Tso,
    /// Turkish
    Tur,
    /// Ukrainian
    Ukr,
    /// Urdu
    Urd,
    /// Vietnamese
    Vie,
    /// Xhosa
    Xho,
    /// Yoruba
    Yor,
    /// Chinese
    Zho,
    /// Zulu
    Zul,
}

/// The language that `code` stands for, if it is the code of one.
pub open spec fn language_of(code: Seq<char>) -> Option<LanguageCode> {
    if code == "afr"@ {
        Some(LanguageCode::Afr)
    } else if code == "ara"@ {
        Some(LanguageCode::Ara)
    } else if code == "aze"@ {
        Some(LanguageCode::Aze)
    } else if code == "bel"@ {
        Some(LanguageCode::Bel)
    } else if code == "ben"@ {
        Some(LanguageCode::Ben)
    } else if code == "bos"@ {
        Some(LanguageCode::Bos)
    } else if code == "bul"@ {
        Some(LanguageCode::Bul)
    } else if code == "cat"@ {
        Some(LanguageCode::Cat)
    } else if code == "ces"@ {
        Some(LanguageCode::Ces)
    } else if code == "cym"@ {
        Some(LanguageCode::Cym)
    } else if code == "dan"@ {
        Some(LanguageCode::Dan)
    } else if code == "deu"@ {
        Some(LanguageCode::Deu)
    } else if code == "ell"@ {
        Some(LanguageCode::Ell)
    } else if code == "eng"@ {
        Some(LanguageCode::Eng)
    } else if code == "epo"@ {
        Some(LanguageCode::Epo)
    } else if code == "est"@ {
        Some(LanguageCode::Est)
    } else if code == "eus"@ {
        Some(LanguageCode::Eus)
    } else if code == "fas"@ {
        Some(LanguageCode::Fas)
    } else if code == "fin"@ {
        Some(LanguageCode::Fin)
    } else if code == "fra"@ {
        Some(LanguageCode::Fra)
    } else if code == "gle"@ {
        Some(LanguageCode::Gle)
    } else if code == "guj"@ {
        Some(LanguageCode::Guj)
    } else if code == "heb"@ {
        Some(LanguageCode::Heb)
    } else if code == "hin"@ {
        Some(LanguageCode::Hin)
    } else if code == "hrv"@ {
        Some(LanguageCode::Hrv)
    } else if code == "hun"@ {
        Some(LanguageCode::Hun)
    } else if code == "hye"@ {
        Some(LanguageCode::Hye)
    } else if code == "ind"@ {
        Some(LanguageCode::Ind)
    } else if code == "isl"@ {
        Some(LanguageCode::Isl)
    } else if code == "ita"@ {
        Some(LanguageCode::Ita)
    } else if code == "jpn"@ {
        Some(LanguageCode::Jpn)
    } else if code == "kat"@ {
        Some(LanguageCode::Kat)
    } else if code == "kaz"@ {
        Some(LanguageCode::Kaz)
    } else if code == "kor"@ {
        Some(LanguageCode::Kor)
    } else if code == "lat"@ {
        Some(LanguageCode::Lat)
    } else if code == "lav"@ {
        Some(LanguageCode::Lav)
    } else if code == "lit"@ {
        Some(LanguageCode::Lit)
    } else if code == "lug"@ {
        Some(LanguageCode::Lug)
    } else if code == "mar"@ {
        Some(LanguageCode::Mar)
    } else if code == "mkd"@ {
        Some(LanguageCode::Mkd)
    } else if code == "mon"@ {
        Some(LanguageCode::Mon)
    } else if code == "mri"@ {
        Some(LanguageCode::Mri)
    } else if code == "msa"@ {
        Some(LanguageCode::Msa)
    } else if code == "nld"@ {
        Some(LanguageCode::Nld)
    } else if code == "nno"@ {
        Some(LanguageCode::Nno)
    } else if code == "nob"@ {
        Some(LanguageCode::Nob)
    } else if code == "pan"@ {
        Some(LanguageCode::Pan)
    } else if code == "pol"@ {
        Some(LanguageCode::Pol)
    } else if code == "por"@ {
        Some(LanguageCode::Por)
    } else if code == "ron"@ {
        Some(LanguageCode::Ron)
    } else if code == "rus"@ {
        Some(LanguageCode::Rus)
    } else if code == "slk"@ {
        Some(LanguageCode::Slk)
    } else if code == "slv"@ {
        Some(LanguageCode::Slv)
    } else if code == "sna"@ {
        Some(LanguageCode::Sna)
    } else if code == "som"@ {
        Some(LanguageCode::Som)
    } else if code == "sot"@ {
        Some(LanguageCode::Sot)
    } else if code == "spa"@ {
        Some(LanguageCode::Spa)
    } else if code == "srp"@ {
        Some(LanguageCode::Srp)
    } else if code == "sqi"@ {
        Some(LanguageCode::Sqi)
    } else if code == "swa"@ {
        Some(LanguageCode::Swa)
    } else if code == "swe"@ {
        Some(LanguageCode::Swe)
    } else if code == "tam"@ {
        Some(LanguageCode::Tam)
    } else if code == "tel"@ {
        Some(LanguageCode::Tel)
    } else if code == "tgl"@ {
        Some(LanguageCode::Tgl)
    } else if code == "tha"@ {
        Some(LanguageCode::Tha)
    } else if code == "tsn"@ {
        Some(LanguageCode::Tsn)
    } else if code == "tso"@ {
        Some(LanguageCode::Tso)
    } else if code == "tur"@ {
        Some(LanguageCode::Tur)
    } else if code == "ukr"@ {
        Some(LanguageCode::Ukr)
    } else if code == "urd"@ {
        Some(LanguageCode::Urd)
    } else if code == "vie"@ {
        Some(LanguageCode::Vie)
    } else if code == "xho"@ {
        Some(LanguageCode::Xho)
    } else if code == "yor"@ {
        Some(LanguageCode::Yor)
    } else if code == "zho"@ {
        Some(LanguageCode::Zho)
    } else if code == "zul"@ {
        Some(LanguageCode::Zul)
    } else {
        None
    }
}

impl LanguageCode {
    /// The code of this language: three lower-case letters.
    pub open spec fn code(self) -> Seq<char> {
        match self {
            LanguageCode::Afr => "afr"@,
            LanguageCode::Ara => "ara"@,
            LanguageCode::Aze => "aze"@,
            LanguageCode::Bel => "bel"@,
            LanguageCode::Ben => "ben"@,
            LanguageCode::Bos => "bos"@,
            LanguageCode::Bul => "bul"@,
            LanguageCode::Cat => "cat"@,
            LanguageCode::Ces => "ces"@,
            LanguageCode::Cym => "cym"@,
            LanguageCode::Dan => "dan"@,
            LanguageCode::Deu => "deu"@,
            LanguageCode::Ell => "ell"@,
            LanguageCode::Eng => "eng"@,
            LanguageCode::Epo => "epo"@,
            LanguageCode::Est => "est"@,
            LanguageCode::Eus => "eus"@,
            LanguageCode::Fas => "fas"@,
            LanguageCode::Fin => "fin"@,
            LanguageCode::Fra => "fra"@,
            LanguageCode::Gle => "gle"@,
            LanguageCode::Guj => "guj"@,
            LanguageCode::Heb => "heb"@,
            LanguageCode::Hin => "hin"@,
            LanguageCode::Hrv => "hrv"@,
            LanguageCode::Hun => "hun"@,
            LanguageCode::Hye => "hye"@,
            LanguageCode::Ind => "ind"@,
            LanguageCode::Isl => "isl"@,
            LanguageCode::Ita => "ita"@,
            LanguageCode::Jpn => "jpn"@,
            LanguageCode::Kat => "kat"@,
            LanguageCode::Kaz => "kaz"@,
            LanguageCode::Kor => "kor"@,
            LanguageCode::Lat => "lat"@,
            LanguageCode::Lav => "lav"@,
            LanguageCode::Lit => "lit"@,
            LanguageCode::Lug => "lug"@,
            LanguageCode::Mar => "mar"@,
            LanguageCode::Mkd => "mkd"@,
            LanguageCode::Mon => "mon"@,
            LanguageCode::Mri => "mri"@,
            LanguageCode::Msa => "msa"@,
            LanguageCode::Nld => "nld"@,
            LanguageCode::Nno => "nno"@,
            LanguageCode::Nob => "nob"@,
            LanguageCode::Pan => "pan"@,
            LanguageCode::Pol => "pol"@,
            LanguageCode::Por => "por"@,
            LanguageCode::Ron => "ron"@,
            LanguageCode::Rus => "rus"@,
            LanguageCode::Slk => "slk"@,
            LanguageCode::Slv => "slv"@,
            LanguageCode::Sna => "sna"@,
            LanguageCode::Som => "som"@,
            LanguageCode::Sot => "sot"@,
            LanguageCode::Spa => "spa"@,
            LanguageCode::Srp => "srp"@,
            LanguageCode::Sqi => "sqi"@,
            LanguageCode::Swa => "swa"@,
            LanguageCode::Swe => "swe"@,
            LanguageCode::Tam => "tam"@,
            LanguageCode::Tel => "tel"@,
            LanguageCode::Tgl => "tgl"@,
            LanguageCode::Tha => "tha"@,
            LanguageCode::Tsn => "tsn"@,
            LanguageCode::Tso => "tso"@,
            LanguageCode::Tur => "tur"@,
            LanguageCode::Ukr => "ukr"@,
            LanguageCode::Urd => "urd"@,
            LanguageCode::Vie => "vie"@,
            LanguageCode::Xho => "xho"@,
            LanguageCode::Yor => "yor"@,
            LanguageCode::Zho => "zho"@,
            LanguageCode::Zul => "zul"@,
        }
    }

    /// The code of this language.
    pub fn as_str(&self) -> (code: &'static str)
        ensures
            code@ == self.code(),
    {
        match self {
            LanguageCode::Afr => "afr",
            LanguageCode::Ara => "ara",
            LanguageCode::Aze => "aze",
            LanguageCode::Bel => "bel",
            LanguageCode::Ben => "ben",
            LanguageCode::Bos => "bos",
            LanguageCode::Bul => "bul",
            LanguageCode::Cat => "cat",
            LanguageCode::Ces => "ces",
            LanguageCode::Cym => "cym",
            LanguageCode::Dan => "dan",
            LanguageCode::Deu => "deu",
            LanguageCode::Ell => "ell",
            LanguageCode::Eng => "eng",
            LanguageCode::Epo => "epo",
            LanguageCode::Est => "est",
            LanguageCode::Eus => "eus",
            LanguageCode::Fas => "fas",
            LanguageCode::Fin => "fin",
            LanguageCode::Fra => "fra",
            LanguageCode::Gle => "gle",
            LanguageCode::Guj => "guj",
            LanguageCode::Heb => "heb",
            LanguageCode::Hin => "hin",
            LanguageCode::Hrv => "hrv",
            LanguageCode::Hun => "hun",
            LanguageCode::Hye => "hye",
            LanguageCode::Ind => "ind",
            LanguageCode::Isl => "isl",
            LanguageCode::Ita => "ita",
            LanguageCode::Jpn => "jpn",
            LanguageCode::Kat => "kat",
            LanguageCode::Kaz => "kaz",
            LanguageCode::Kor => "kor",
            LanguageCode::Lat => "lat",
            LanguageCode::Lav => "lav",
            LanguageCode::Lit => "lit",
            LanguageCode::Lug => "lug",
            LanguageCode::Mar => "mar",
            LanguageCode::Mkd => "mkd",
            LanguageCode::Mon => "mon",
            LanguageCode::Mri => "mri",
            LanguageCode::Msa => "msa",
            LanguageCode::Nld => "nld",
            LanguageCode::Nno => "nno",
            LanguageCode::Nob => "nob",
            LanguageCode::Pan => "pan",
            LanguageCode::Pol => "pol",
            LanguageCode::Por => "por",
            LanguageCode::Ron => "ron",
            LanguageCode::Rus => "rus",
            LanguageCode::Slk => "slk",
            LanguageCode::Slv => "slv",
            LanguageCode::Sna => "sna",
            LanguageCode::Som => "som",
            LanguageCode::Sot => "sot",
            LanguageCode::Spa => "spa",
            LanguageCode::Srp => "srp",
            LanguageCode::Sqi => "sqi",
            LanguageCode::Swa => "swa",
            LanguageCode::Swe => "swe",
            LanguageCode::Tam => "tam",
            LanguageCode::Tel => "tel",
            LanguageCode::Tgl => "tgl",
            LanguageCode::Tha => "tha",
            LanguageCode::Tsn => "tsn",
            LanguageCode::Tso => "tso",
            LanguageCode::Tur => "tur",
            LanguageCode::Ukr => "ukr",
            LanguageCode::Urd => "urd",
            LanguageCode::Vie => "vie",
            LanguageCode::Xho => "xho",
            LanguageCode::Yor => "yor",
            LanguageCode::Zho => "zho",
            LanguageCode::Zul => "zul",
        }
    }

    /// The code of this language, as an owned string.
    pub fn to_string(&self) -> (code: String)
        ensures
            code@ == self.code(),
    {
        self.as_str().to_owned()
    }

    /// The language with the given code, if there is one.
    pub fn parse(code: &str) -> (language: Option<LanguageCode>)
        ensures
            language == language_of(code@),
    {
        if code.eq("afr") {
            Some(LanguageCode::Afr)
        } else if code.eq("ara") {
            Some(LanguageCode::Ara)
        } else if code.eq("aze") {
            Some(LanguageCode::Aze)
        } else if code.eq("bel") {
            Some(LanguageCode::Bel)
        } else if code.eq("ben") {
            Some(LanguageCode::Ben)
        } else if code.eq("bos") {
            Some(LanguageCode::Bos)
        } else if code.eq("bul") {
            Some(LanguageCode::Bul)
        } else if code.eq("cat") {
            Some(LanguageCode::Cat)
        } else if code.eq("ces") {
            Some(LanguageCode::Ces)
        } else if code.eq("cym") {
            Some(LanguageCode::Cym)
        } else if code.eq("dan") {
            Some(LanguageCode::Dan)
        } else if code.eq("deu") {
            Some(LanguageCode::Deu)
        } else if code.eq("ell") {
            Some(LanguageCode::Ell)
        } else if code.eq("eng") {
            Some(LanguageCode::Eng)
        } else if code.eq("epo") {
            Some(LanguageCode::Epo)
        } else if code.eq("est") {
            Some(LanguageCode::Est)
        } else if code.eq("eus") {
            Some(LanguageCode::Eus)
        } else if code.eq("fas") {
            Some(LanguageCode::Fas)
        } else if code.eq("fin") {
            Some(LanguageCode::Fin)
        } else if code.eq("fra") {
            Some(LanguageCode::Fra)
        } else if code.eq("gle") {
            Some(LanguageCode::Gle)
        } else if code.eq("guj") {
            Some(LanguageCode::Guj)
        } else if code.eq("heb") {
            Some(LanguageCode::Heb)
        } else if code.eq("hin") {
            Some(LanguageCode::Hin)
        } else if code.eq("hrv") {
            Some(LanguageCode::Hrv)
        } else if code.eq("hun") {
            Some(LanguageCode::Hun)
        } else if code.eq("hye") {
            Some(LanguageCode::Hye)
        } else if code.eq("ind") {
            Some(LanguageCode::Ind)
        } else if code.eq("isl") {
            Some(LanguageCode::Isl)
        } else if code.eq("ita") {
            Some(LanguageCode::Ita)
        } else if code.eq("jpn") {
            Some(LanguageCode::Jpn)
        } else if code.eq("kat") {
            Some(LanguageCode::Kat)
        } else if code.eq("kaz") {
            Some(LanguageCode::Kaz)
        } else if code.eq("kor") {
            Some(LanguageCode::Kor)
        } else if code.eq("lat") {
            Some(LanguageCode::Lat)
        } else if code.eq("lav") {
            Some(LanguageCode::Lav)
        } else if code.eq("lit") {
            Some(LanguageCode::Lit)
        } else if code.eq("lug") {
            Some(LanguageCode::Lug)
        } else if code.eq("mar") {
            Some(LanguageCode::Mar)
        } else if code.eq("mkd") {
            Some(LanguageCode::Mkd)
        } else if code.eq("mon") {
            Some(LanguageCode::Mon)
        } else if code.eq("mri") {
            Some(LanguageCode::Mri)
        } else if code.eq("msa") {
            Some(LanguageCode::Msa)
        } else if code.eq("nld") {
            Some(LanguageCode::Nld)
        } else if code.eq("nno") {
            Some(LanguageCode::Nno)
        } else if code.eq("nob") {
            Some(LanguageCode::Nob)
        } else if code.eq("pan") {
            Some(LanguageCode::Pan)
        } else if code.eq("pol") {
            Some(LanguageCode::Pol)
        } else if code.eq("por") {
            Some(LanguageCode::Por)
        } else if code.eq("ron") {
            Some(LanguageCode::Ron)
        } else if code.eq("rus") {
            Some(LanguageCode::Rus)
        } else if code.eq("slk") {
            Some(LanguageCode::Slk)
        } else if code.eq("slv") {
            Some(LanguageCode::Slv)
        } else if code.eq("sna") {
            Some(LanguageCode::Sna)
        } else if code.eq("som") {
            Some(LanguageCode::Som)
        } else if code.eq("sot") {
            Some(LanguageCode::Sot)
        } else if code.eq("spa") {
            Some(LanguageCode::Spa)
        } else if code.eq("srp") {
            Some(LanguageCode::Srp)
        } else if code.eq("sqi") {
            Some(LanguageCode::Sqi)
        } else if code.eq("swa") {
            Some(LanguageCode::Swa)
        } else if code.eq("swe") {
            Some(LanguageCode::Swe)
        } else if code.eq("tam") {
            Some(LanguageCode::Tam)
        } else if code.eq("tel") {
            Some(LanguageCode::Tel)
        } else if code.eq("tgl") {
            Some(LanguageCode::Tgl)
        } else if code.eq("tha") {
            Some(LanguageCode::Tha)
        } else if code.eq("tsn") {
            Some(LanguageCode::Tsn)
        } else if code.eq("tso") {
            Some(LanguageCode::Tso)
        } else if code.eq("tur") {
            Some(LanguageCode::Tur)
        } else if code.eq("ukr") {
            Some(LanguageCode::Ukr)
        } else if code.eq("urd") {
            Some(LanguageCode::Urd)
        } else if code.eq("vie") {
            Some(LanguageCode::Vie)
        } else if code.eq("xho") {
            Some(LanguageCode::Xho)
        } else if code.eq("yor") {
            Some(LanguageCode::Yor)
        } else if code.eq("zho") {
            Some(LanguageCode::Zho)
        } else if code.eq("zul") {
            Some(LanguageCode::Zul)
        } else {
            None
        }
    }
}

/// The text that was given is the code of no language.
#[derive(Clone, Copy, Debug, PartialEq, Eq)]
pub struct UnknownLanguageCode;

impl core::str::FromStr for LanguageCode {
    type Err = UnknownLanguageCode;

    fn from_str(code: &str) -> (language: Result<LanguageCode, UnknownLanguageCode>)
        ensures
            match language_of(code@) {
                Some(known) => language == Ok::<LanguageCode, UnknownLanguageCode>(known),
                None => language is Err,
            },
    {
        match LanguageCode::parse(code) {
            Some(language) => Ok(language),
            None => Err(UnknownLanguageCode),
        }
    }
}

/// Every code is three characters long.
pub proof fn lemma_code_has_three_letters(language: LanguageCode)
    ensures
        language.code().len() == 3,
{
    reveal_strlit("afr");
    reveal_strlit("ara");
    reveal_strlit("aze");
    reveal_strlit("bel");
    reveal_strlit("ben");
    reveal_strlit("bos");
    reveal_strlit("bul");
    reveal_strlit("cat");
    reveal_strlit("ces");
    reveal_strlit("cym");
    reveal_strlit("dan");
    reveal_strlit("deu");
    reveal_strlit("ell");
    reveal_strlit("eng");
    reveal_strlit("epo");
    reveal_strlit("est");
    reveal_strlit("eus");
    reveal_strlit("fas");
    reveal_strlit("fin");
    reveal_strlit("fra");
    reveal_strlit("gle");
    reveal_strlit("guj");
    reveal_strlit("heb");
    reveal_strlit("hin");
    reveal_strlit("hrv");
    reveal_strlit("hun");
    reveal_strlit("hye");
    reveal_strlit("ind");
    reveal_strlit("isl");
    reveal_strlit("ita");
    reveal_strlit("jpn");
    reveal_strlit("kat");
    reveal_strlit("kaz");
    reveal_strlit("kor");
    reveal_strlit("lat");
    reveal_strlit("lav");
    reveal_strlit("lit");
    reveal_strlit("lug");
    reveal_strlit("mar");
    reveal_strlit("mkd");
    reveal_strlit("mon");
    reveal_strlit("mri");
    reveal_strlit("msa");
    reveal_strlit("nld");
    reveal_strlit("nno");
    reveal_strlit("nob");
    reveal_strlit("pan");
    reveal_strlit("pol");
    reveal_strlit("por");
    reveal_strlit("ron");
    reveal_strlit("rus");
    reveal_strlit("slk");
    reveal_strlit("slv");
    reveal_strlit("sna");
    reveal_strlit("som");
    reveal_strlit("sot");
    reveal_strlit("spa");
    reveal_strlit("srp");
    reveal_strlit("sqi");
    reveal_strlit("swa");
    reveal_strlit("swe");
    reveal_strlit("tam");
    reveal_strlit("tel");
    reveal_strlit("tgl");
    reveal_strlit("tha");
    reveal_strlit("tsn");
    reveal_strlit("tso");
    reveal_strlit("tur");
    reveal_strlit("ukr");
    reveal_strlit("urd");
    reveal_strlit("vie");
    reveal_strlit("xho");
    reveal_strlit("yor");
    reveal_strlit("zho");
    reveal_strlit("zul");
}

/// No two languages share a code.
pub proof fn lemma_codes_are_distinct(first: LanguageCode, second: LanguageCode)
    requires
        first.code() == second.code(),
    ensures
        first == second,
{
    reveal_strlit("afr");
    reveal_strlit("ara");
    reveal_strlit("aze");
    reveal_strlit("bel");
    reveal_strlit("ben");
    reveal_strlit("bos");
    reveal_strlit("bul");
    reveal_strlit("cat");
    reveal_strlit("ces");
    reveal_strlit("cym");
    reveal_strlit("dan");
    reveal_strlit("deu");
    reveal_strlit("ell");
    reveal_strlit("eng");
    reveal_strlit("epo");
    reveal_strlit("est");
    reveal_strlit("eus");
    reveal_strlit("fas");
    reveal_strlit("fin");
    reveal_strlit("fra");
    reveal_strlit("gle");
    reveal_strlit("guj");
    reveal_strlit("heb");
    reveal_strlit("hin");
    reveal_strlit("hrv");
    reveal_strlit("hun");
    reveal_strlit("hye");
    reveal_strlit("ind");
    reveal_strlit("isl");
    reveal_strlit("ita");
    reveal_strlit("jpn");
    reveal_strlit("kat");
    reveal_strlit("kaz");
    reveal_strlit("kor");
    reveal_strlit("lat");
    reveal_strlit("lav");
    reveal_strlit("lit");
    reveal_strlit("lug");
    reveal_strlit("mar");
    reveal_strlit("mkd");
    reveal_strlit("mon");
    reveal_strlit("mri");
    reveal_strlit("msa");
    reveal_strlit("nld");
    reveal_strlit("nno");
    reveal_strlit("nob");
    reveal_strlit("pan");
    reveal_strlit("pol");
    reveal_strlit("por");
    reveal_strlit("ron");
    reveal_strlit("rus");
    reveal_strlit("slk");
    reveal_strlit("slv");
    reveal_strlit("sna");
    reveal_strlit("som");
    reveal_strlit("sot");
    reveal_strlit("spa");
    reveal_strlit("srp");
    reveal_strlit("sqi");
    reveal_strlit("swa");
    reveal_strlit("swe");
    reveal_strlit("tam");
    reveal_strlit("tel");
    reveal_strlit("tgl");
    reveal_strlit("tha");
    reveal_strlit("tsn");
    reveal_strlit("tso");
    reveal_strlit("tur");
    reveal_strlit("ukr");
    reveal_strlit("urd");
    reveal_strlit("vie");
    reveal_strlit("xho");
    reveal_strlit("yor");
    reveal_strlit("zho");
    reveal_strlit("zul");
    let code = first.code();
    assert(code[0] == second.code()[0]);
    assert(code[1] == second.code()[1]);
    assert(code[2] == second.code()[2]);
}

/// Reading the code of a language gives that language back, and a text reads
/// as a language only if it is that language's code.
pub proof fn lemma_code_round_trip(language: LanguageCode, code: Seq<char>)
    ensures
        language_of(language.code()) == Some(language),
        language_of(code) == Some(language) <==> code == language.code(),
{
    assert forall|other: LanguageCode| other.code() == language.code() implies other
        == language by {
        lemma_codes_are_distinct(other, language);
    }
    if let Some(found) = language_of(code) {
        assert(found.code() == code);
    }
    let read = language_of(language.code());
    assert(read is Some);
    assert(read->0.code() == language.code());
}

/// What a [`SelectLanguageRequest`] holds.
pub struct SelectLanguageRequestView {
    pub text: Seq<char>,
    pub languages: Seq<LanguageCode>,
}

/// A text and the languages to choose from.
#[derive(Clone, Debug)]
pub struct SelectLanguageRequest {
    /// The text whose language is asked for.
    pub text: String,
    /// All languages that should be considered during detection.
    pub languages: Vec<LanguageCode>,
}

impl View for SelectLanguageRequest {
    type V = SelectLanguageRequestView;

    open spec fn view(&self) -> SelectLanguageRequestView {
        SelectLanguageRequestView { text: self.text@, languages: self.languages@ }
    }
}

impl SelectLanguageRequest {
    /// The request to find which of `languages` the text is written in.
    pub fn new(text: &str, languages: Vec<LanguageCode>) -> (request: SelectLanguageRequest)
        ensures
            request@ == (SelectLanguageRequestView { text: text@, languages: languages@ }),
    {
        SelectLanguageRequest { text: text.to_owned(), languages }
    }
}

} // verus!
