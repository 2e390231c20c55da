//! What the user asked for, and the address of the station document that
//! follows from it.

use vstd::prelude::*;

verus! {

/// The language of the text in a station document.
#[derive(Debug, Copy, Clone, PartialEq, Eq, PartialOrd, Ord, Structural)]
pub enum Language {
    /// Text in French.
    French,
    /// Text in English.
    English,
}

impl Language {
    /// The letter that stands for the language in a document's address.
    pub open spec fn code(self) -> Seq<char> {
        match self {
            Language::French => "f"@,
            Language::English => "e"@,
        }
    }

    /// The letter that stands for the language in a document's address.
    pub fn to_string(&self) -> (r: String)
        ensures
            r@ == self.code(),
    {
        match self {
            Language::French => String::from_str("f"),
            Language::English => String::from_str("e"),
        }
    }
}

/// The province or territory a station lies in.
#[derive(Debug, Copy, Clone, PartialEq, Eq, PartialOrd, Ord, Structural)]
pub enum Province {
    AB,
    BC,
    HEF,
    MB,
    NB,
    NL,
    NS,
    NT,
    NU,
    ON,
    PE,
    QC,
    SK,
    YT,
}

impl Province {
    /// The province's code, as it stands in a document's address.
    pub open spec fn code(self) -> Seq<char> {
        match self {
            Province::AB => "AB"@,
            Province::BC => "BC"@,
            Province::HEF => "HEF"@,
            Province::MB => "MB"@,
            Province::NB => "NB"@,
            Province::NL => "NL"@,
            Province::NS => "NS"@,
            Province::NT => "NT"@,
            Province::NU => "NU"@,
            Province::ON => "ON"@,
            Province::PE => "PE"@,
            Province::QC => "QC"@,
            Province::SK => "SK"@,
            Province::YT => "YT"@,
        }
    }

    /// The province's code, as it stands in a document's address.
    pub fn to_string(&self) -> (r: String)
        ensures
            r@ == self.code(),
    {
        match self {
            Province::AB => String::from_str("AB"),
            Province::BC => String::from_str("BC"),
            Province::HEF => String::from_str("HEF"),
            Province::MB => String::from_str("MB"),
            Province::NB => String::from_str("NB"),
            Province::NL => String::from_str("NL"),
            Province::NS => String::from_str("NS"),
            Province::NT => String::from_str("NT"),
            Province::NU => String::from_str("NU"),
            Province::ON => String::from_str("ON"),
            Province::PE => String::from_str("PE"),
            Province::QC => String::from_str("QC"),
            Province::SK => String::from_str("SK"),
            Province::YT => String::from_str("YT"),
        }
    }
}

/// The address of the document of station `station_id` in `province`, with
/// its text in `language`.
pub open spec fn station_url(province: Province, station_id: Seq<char>, language: Language) -> Seq<
    char,
> {
    "https://dd.weather.gc.ca/citypage_weather/xml"@ + "/"@ + province.code() + "/"@ + station_id
        + "_"@ + language.code() + ".xml"@
}

/// One run's settings. They are made once and handed on; nothing changes
/// them afterwards.
#[derive(Debug)]
pub struct Args {
    /// The address of the station document.
    pub url: Option<String>,
    /// Only the temperature is wanted.
    pub temperature_only: bool,
    /// Only the relative humidity is wanted.
    pub relative_humidity_only: bool,
    /// The province the station lies in.
    pub province: Province,
    /// The station's identifier.
    pub station_id: String,
    /// The language of the document's text.
    pub language: Language,
}

impl Args {
    /// The settings for one run. An address that is given stands as it is;
    /// without one the address is that of the station's document.
    pub fn new(
        url: Option<String>,
        temperature_only: bool,
        relative_humidity_only: bool,
        province: Province,
        station_id: String,
        language: Language,
    ) -> (args: Args)
        ensures
            args.url is Some,
            url is Some ==> args.url == url,
            url is None ==> args.url->0@ == station_url(province, station_id@, language),
            args.temperature_only == temperature_only,
            args.relative_humidity_only == relative_humidity_only,
            args.province == province,
            args.station_id == station_id,
            args.language == language,
    {
        let url = match url {
            Some(given) => given,
            None => {
                let mut built = String::from_str("https://dd.weather.gc.ca/citypage_weather/xml");
                built.append("/");
                built.append(province.to_string().as_str());
                built.append("/");
                built.append(station_id.as_str());
                built.append("_");
                built.append(language.to_string().as_str());
                built.append(".xml");
                built
            },
        };
        Args {
            url: Some(url),
            temperature_only,
            relative_humidity_only,
            province,
            station_id,
            language,
        }
    }
}

} // verus!
