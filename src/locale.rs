use vstd::prelude::*;

use crate::text::same_text;

verus! {

/// Two-letter code of a continent.
#[derive(Debug, Clone, Copy, PartialEq, Eq, Structural)]
pub enum ContinentCode {
    AF,
    AN,
    AS,
    EU,
    NA,
    OC,
    SA,
}

/// A continent as the service lists it.
#[derive(Debug, Clone)]
pub struct Continent {
    pub code: ContinentCode,
    pub name: String,
}

/// The English name of a continent.
pub open spec fn continent_name(c: ContinentCode) -> Seq<char> {
    match c {
        ContinentCode::AF => "Africa"@,
        ContinentCode::AN => "Antarctica"@,
        ContinentCode::AS => "Asia"@,
        ContinentCode::EU => "Europe"@,
        ContinentCode::NA => "North America"@,
        ContinentCode::OC => "Oceania"@,
        ContinentCode::SA => "South America"@,
    }
}

/// The two-letter text of a continent code.
pub open spec fn continent_code_text(c: ContinentCode) -> Seq<char> {
    match c {
        ContinentCode::AF => "AF"@,
        ContinentCode::AN => "AN"@,
        ContinentCode::AS => "AS"@,
        ContinentCode::EU => "EU"@,
        ContinentCode::NA => "NA"@,
        ContinentCode::OC => "OC"@,
        ContinentCode::SA => "SA"@,
    }
}

impl ContinentCode {
    /// The English name of the continent.
    pub fn get_full_name(&self) -> (r: &'static str)
        ensures
            r@ == continent_name(*self),
    {
        match self {
            ContinentCode::AF => "Africa",
            ContinentCode::AN => "Antarctica",
            ContinentCode::AS => "Asia",
            ContinentCode::EU => "Europe",
            ContinentCode::NA => "North America",
            ContinentCode::OC => "Oceania",
            ContinentCode::SA => "South America",
        }
    }

    /// The two-letter text of the code.
    pub fn as_str(&self) -> (r: &'static str)
        ensures
            r@ == continent_code_text(*self),
    {
        match self {
            ContinentCode::AF => "AF",
            ContinentCode::AN => "AN",
            ContinentCode::AS => "AS",
            ContinentCode::EU => "EU",
            ContinentCode::NA => "NA",
            ContinentCode::OC => "OC",
            ContinentCode::SA => "SA",
        }
    }

    /// The code whose two-letter text is `s`; `Err` for any other text.
    pub fn parse(s: &str) -> (r: Result<ContinentCode, ()>)
        ensures
            match r {
                Ok(c) => continent_code_text(c) == s@,
                Err(_) => forall|c: ContinentCode| continent_code_text(c) != s@,
            },
    {
        if same_text(s, "AF") {
            Ok(ContinentCode::AF)
        } else if same_text(s, "AN") {
            Ok(ContinentCode::AN)
        } else if same_text(s, "AS") {
            Ok(ContinentCode::AS)
        } else if same_text(s, "EU") {
            Ok(ContinentCode::EU)
        } else if same_text(s, "NA") {
            Ok(ContinentCode::NA)
        } else if same_text(s, "OC") {
            Ok(ContinentCode::OC)
        } else if same_text(s, "SA") {
            Ok(ContinentCode::SA)
        } else {
            Err(())
        }
    }
}

} // verus!
