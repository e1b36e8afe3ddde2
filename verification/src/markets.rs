//! Markets: countries, regions, languages, and the service catalog a
//! market exposes.
use vstd::prelude::*;
use crate::text::lower_of;
use crate::text::str_eq;
use crate::text::to_lowercase;

verus! {

/// A country served by the API, with the code the market header carries.
#[derive(Clone, Debug, PartialEq, Eq, Structural)]
pub enum Country {
    Philippines,
}

impl Country {
    /// The two-letter code the market header carries for this country.
    pub open spec fn spec_country_code(&self) -> Seq<char> {
        match self {
            Country::Philippines => "PH"@,
        }
    }

    /// Country code used for routing and request headers.
    pub fn country_code(&self) -> (r: &'static str)
        ensures
            r@ == self.spec_country_code(),
    {
        match self {
            Country::Philippines => "PH",
        }
    }
}

/// A language accepted by some market, able to render its language tag.
pub trait Language: Sized {
    /// The tag this language is sent as.
    spec fn spec_language_code(&self) -> Seq<char>;

    /// Language tag placed into outbound request bodies.
    fn language_code(&self) -> (r: &'static str)
        ensures
            r@ == self.spec_language_code(),
    ;
}

/// A market: a country together with the languages it accepts.
pub trait Market: Sized {
    type Languages: Language;

    /// The country this market belongs to.
    spec fn spec_country() -> Country;

    /// The country this market belongs to.
    fn country() -> (c: Country)
        ensures
            c == Self::spec_country(),
    ;
}

/// The Philippine market.
#[derive(Clone, Debug)]
pub struct PhilippineMarket;

impl Market for PhilippineMarket {
    type Languages = PhilippineLanguages;

    open spec fn spec_country() -> Country {
        Country::Philippines
    }

    fn country() -> (c: Country) {
        Country::Philippines
    }
}

/// The languages the Philippine market accepts.
#[derive(Clone, Debug, PartialEq, Eq, Structural)]
pub enum PhilippineLanguages {
    English,
}

/// Failure to recognise a Philippine language tag.
#[derive(Clone, Debug, PartialEq, Eq, Structural)]
pub enum InvalidPhilippineLanguage {
    NoLanguageCodeFound,
}

impl Language for PhilippineLanguages {
    open spec fn spec_language_code(&self) -> Seq<char> {
        match self {
            PhilippineLanguages::English => "en_PH"@,
        }
    }

    fn language_code(&self) -> (r: &'static str) {
        match self {
            PhilippineLanguages::English => "en_PH",
        }
    }
}

impl PhilippineLanguages {
    /// Which language a tag denotes: its Unicode lower-case form must be
    /// the language's tag.
    pub open spec fn spec_from_str(s: Seq<char>) -> Result<
        PhilippineLanguages,
        InvalidPhilippineLanguage,
    > {
        if lower_of(s) == "en_ph"@ {
            Ok(PhilippineLanguages::English)
        } else {
            Err(InvalidPhilippineLanguage::NoLanguageCodeFound)
        }
    }

    /// Parses a language tag, matching its Unicode lower-case form.
    pub fn from_str(language_code: &str) -> (r: Result<Self, InvalidPhilippineLanguage>)
        ensures
            r == Self::spec_from_str(language_code@),
    {
        let lower = to_lowercase(language_code);
        if str_eq(lower.as_str(), "en_ph") {
            Ok(PhilippineLanguages::English)
        } else {
            Err(InvalidPhilippineLanguage::NoLanguageCodeFound)
        }
    }
}

/// The regions the API serves, grouped by country.
#[derive(Clone, Debug, PartialEq, Eq, Structural)]
pub enum Region {
    Philippines(PhilippineRegions),
}

/// The Philippine regions the API serves.
#[derive(Clone, Debug, PartialEq, Eq, Structural)]
pub enum PhilippineRegions {
    Cebu,
    Manila,
    Pampanga,
}

/// Failure to recognise a region's location code.
#[derive(Clone, Debug, PartialEq, Eq, Structural)]
pub enum RegionError {
    InvalidString,
}

impl Region {
    /// The location code this region is written as on the wire.
    pub open spec fn spec_location_code(&self) -> Seq<char> {
        match self {
            Region::Philippines(region) => match region {
                PhilippineRegions::Cebu => "PH CEB"@,
                PhilippineRegions::Manila => "PH MNL"@,
                PhilippineRegions::Pampanga => "PH PAM"@,
            },
        }
    }

    /// Location code of the region, as responses carry it.
    pub fn location_code(&self) -> (r: &'static str)
        ensures
            r@ == self.spec_location_code(),
    {
        match self {
            Region::Philippines(region) => match region {
                PhilippineRegions::Cebu => "PH CEB",
                PhilippineRegions::Manila => "PH MNL",
                PhilippineRegions::Pampanga => "PH PAM",
            },
        }
    }

    /// Which region a location code denotes: its Unicode lower-case form
    /// must be one of the region codes.
    pub open spec fn spec_from_str(s: Seq<char>) -> Result<Region, RegionError> {
        let l = lower_of(s);
        if l == "ph ceb"@ {
            Ok(Region::Philippines(PhilippineRegions::Cebu))
        } else if l == "ph mnl"@ {
            Ok(Region::Philippines(PhilippineRegions::Manila))
        } else if l == "ph pam"@ {
            Ok(Region::Philippines(PhilippineRegions::Pampanga))
        } else {
            Err(RegionError::InvalidString)
        }
    }

    /// Parses a region's location code, matching its Unicode lower-case
    /// form.
    pub fn from_str(region: &str) -> (r: Result<Region, RegionError>)
        ensures
            r == Self::spec_from_str(region@),
    {
        let lower = to_lowercase(region);
        if str_eq(lower.as_str(), "ph ceb") {
            Ok(Region::Philippines(PhilippineRegions::Cebu))
        } else if str_eq(lower.as_str(), "ph mnl") {
            Ok(Region::Philippines(PhilippineRegions::Manila))
        } else if str_eq(lower.as_str(), "ph pam") {
            Ok(Region::Philippines(PhilippineRegions::Pampanga))
        } else {
            Err(RegionError::InvalidString)
        }
    }
}

/// Identifier of a delivery service offered in a region.
#[derive(Clone, Debug, PartialEq, Eq)]
pub struct ServiceType(pub String);

/// Identifier of an extra request a service supports.
#[derive(Clone, Debug, PartialEq, Eq)]
pub struct SpecialRequestType(pub String);

/// An extra request a service supports, with its description.
#[derive(Clone, Debug)]
pub struct SpecialRequest {
    pub description: String,
    pub special_request: SpecialRequestType,
}

/// A length in meters, kept as the decimal numeral the wire carries.
#[derive(Clone, Debug, PartialEq, Eq)]
pub struct Meters(pub String);

/// A mass in kilograms, kept as the decimal numeral the wire carries.
#[derive(Clone, Debug, PartialEq, Eq)]
pub struct Kilograms(pub String);

/// The size of parcel a service can carry.
#[derive(Clone, Debug)]
pub struct Dimensions {
    pub width: Meters,
    pub height: Meters,
    pub length: Meters,
}

/// A delivery service offered in a region.
#[derive(Clone, Debug)]
pub struct Service {
    pub service: ServiceType,
    pub description: String,
    pub dimensions: Dimensions,
    pub load: Kilograms,
    pub special_requests: Vec<SpecialRequest>,
}

/// The services offered in one region.
#[derive(Clone, Debug)]
pub struct RegionInfo {
    pub region: Region,
    pub services: Vec<Service>,
}

/// The whole service catalog of a market.
#[derive(Clone, Debug)]
pub struct MarketInfo {
    pub regions: Vec<RegionInfo>,
}

} // verus!
