//! The closed set of physical-layer rate constants. A rate travels on the
//! wire as its ordinal; its short name appears only at text and scripting
//! boundaries.
use vstd::prelude::*;
use vstd::string::StringExecFns;

use crate::text::str_eq;

verus! {

/// Physical-layer rate constants, in wire-ordinal order.
#[derive(Clone, Copy, Debug, PartialEq, Eq, Structural)]
pub enum WifiPhyRate {
    Rate1mL,
    Rate2m,
    Rate5mL,
    Rate11mL,
    Rate2mS,
    Rate5mS,
    Rate11mS,
    Rate48m,
    Rate24m,
    Rate12m,
    Rate6m,
    Rate54m,
    Rate36m,
    Rate18m,
    Rate9m,
    RateMcs0Lgi,
    RateMcs1Lgi,
    RateMcs2Lgi,
    RateMcs3Lgi,
    RateMcs4Lgi,
    RateMcs5Lgi,
    RateMcs6Lgi,
    RateMcs7Lgi,
    RateMcs0Sgi,
    RateMcs1Sgi,
    RateMcs2Sgi,
    RateMcs3Sgi,
    RateMcs4Sgi,
    RateMcs5Sgi,
    RateMcs6Sgi,
    RateMcs7Sgi,
    RateLora250k,
    RateLora500k,
    RateMax,
}

/// Error returned when a rate name is not recognised.
#[derive(Debug, Clone, Copy, PartialEq, Eq, Structural)]
pub struct ParseWifiPhyRateError;

/// Wire ordinal of a rate.
pub open spec fn spec_rate_index(r: WifiPhyRate) -> u32 {
    match r {
        WifiPhyRate::Rate1mL => 0,
        WifiPhyRate::Rate2m => 1,
        WifiPhyRate::Rate5mL => 2,
        WifiPhyRate::Rate11mL => 3,
        WifiPhyRate::Rate2mS => 4,
        WifiPhyRate::Rate5mS => 5,
        WifiPhyRate::Rate11mS => 6,
        WifiPhyRate::Rate48m => 7,
        WifiPhyRate::Rate24m => 8,
        WifiPhyRate::Rate12m => 9,
        WifiPhyRate::Rate6m => 10,
        WifiPhyRate::Rate54m => 11,
        WifiPhyRate::Rate36m => 12,
        WifiPhyRate::Rate18m => 13,
        WifiPhyRate::Rate9m => 14,
        WifiPhyRate::RateMcs0Lgi => 15,
        WifiPhyRate::RateMcs1Lgi => 16,
        WifiPhyRate::RateMcs2Lgi => 17,
        WifiPhyRate::RateMcs3Lgi => 18,
        WifiPhyRate::RateMcs4Lgi => 19,
        WifiPhyRate::RateMcs5Lgi => 20,
        WifiPhyRate::RateMcs6Lgi => 21,
        WifiPhyRate::RateMcs7Lgi => 22,
        WifiPhyRate::RateMcs0Sgi => 23,
        WifiPhyRate::RateMcs1Sgi => 24,
        WifiPhyRate::RateMcs2Sgi => 25,
        WifiPhyRate::RateMcs3Sgi => 26,
        WifiPhyRate::RateMcs4Sgi => 27,
        WifiPhyRate::RateMcs5Sgi => 28,
        WifiPhyRate::RateMcs6Sgi => 29,
        WifiPhyRate::RateMcs7Sgi => 30,
        WifiPhyRate::RateLora250k => 31,
        WifiPhyRate::RateLora500k => 32,
        WifiPhyRate::RateMax => 33,
    }
}

/// The rate with the given wire ordinal, if any.
pub open spec fn spec_rate_from_index(v: u32) -> Option<WifiPhyRate> {
    if v == 0 {
        Some(WifiPhyRate::Rate1mL)
    } else if v == 1 {
        Some(WifiPhyRate::Rate2m)
    } else if v == 2 {
        Some(WifiPhyRate::Rate5mL)
    } else if v == 3 {
        Some(WifiPhyRate::Rate11mL)
    } else if v == 4 {
        Some(WifiPhyRate::Rate2mS)
    } else if v == 5 {
        Some(WifiPhyRate::Rate5mS)
    } else if v == 6 {
        Some(WifiPhyRate::Rate11mS)
    } else if v == 7 {
        Some(WifiPhyRate::Rate48m)
    } else if v == 8 {
        Some(WifiPhyRate::Rate24m)
    } else if v == 9 {
        Some(WifiPhyRate::Rate12m)
    } else if v == 10 {
        Some(WifiPhyRate::Rate6m)
    } else if v == 11 {
        Some(WifiPhyRate::Rate54m)
    } else if v == 12 {
        Some(WifiPhyRate::Rate36m)
    } else if v == 13 {
        Some(WifiPhyRate::Rate18m)
    } else if v == 14 {
        Some(WifiPhyRate::Rate9m)
    } else if v == 15 {
        Some(WifiPhyRate::RateMcs0Lgi)
    } else if v == 16 {
        Some(WifiPhyRate::RateMcs1Lgi)
    } else if v == 17 {
        Some(WifiPhyRate::RateMcs2Lgi)
    } else if v == 18 {
        Some(WifiPhyRate::RateMcs3Lgi)
    } else if v == 19 {
        Some(WifiPhyRate::RateMcs4Lgi)
    } else if v == 20 {
        Some(WifiPhyRate::RateMcs5Lgi)
    } else if v == 21 {
        Some(WifiPhyRate::RateMcs6Lgi)
    } else if v == 22 {
        Some(WifiPhyRate::RateMcs7Lgi)
    } else if v == 23 {
        Some(WifiPhyRate::RateMcs0Sgi)
    } else if v == 24 {
        Some(WifiPhyRate::RateMcs1Sgi)
    } else if v == 25 {
        Some(WifiPhyRate::RateMcs2Sgi)
    } else if v == 26 {
        Some(WifiPhyRate::RateMcs3Sgi)
    } else if v == 27 {
        Some(WifiPhyRate::RateMcs4Sgi)
    } else if v == 28 {
        Some(WifiPhyRate::RateMcs5Sgi)
    } else if v == 29 {
        Some(WifiPhyRate::RateMcs6Sgi)
    } else if v == 30 {
        Some(WifiPhyRate::RateMcs7Sgi)
    } else if v == 31 {
        Some(WifiPhyRate::RateLora250k)
    } else if v == 32 {
        Some(WifiPhyRate::RateLora500k)
    } else if v == 33 {
        Some(WifiPhyRate::RateMax)
    } else {
        None
    }
}

/// Short textual name of a rate.
pub open spec fn spec_rate_name(r: WifiPhyRate) -> Seq<char> {
    match r {
        WifiPhyRate::Rate1mL => "1mL"@,
        WifiPhyRate::Rate2m => "2m"@,
        WifiPhyRate::Rate5mL => "5mL"@,
        WifiPhyRate::Rate11mL => "11mL"@,
        WifiPhyRate::Rate2mS => "2mS"@,
        WifiPhyRate::Rate5mS => "5mS"@,
        WifiPhyRate::Rate11mS => "11mS"@,
        WifiPhyRate::Rate48m => "48m"@,
        WifiPhyRate::Rate24m => "24m"@,
        WifiPhyRate::Rate12m => "12m"@,
        WifiPhyRate::Rate6m => "6m"@,
        WifiPhyRate::Rate54m => "54m"@,
        WifiPhyRate::Rate36m => "36m"@,
        WifiPhyRate::Rate18m => "18m"@,
        WifiPhyRate::Rate9m => "9m"@,
        WifiPhyRate::RateMcs0Lgi => "Mcs0Lgi"@,
        WifiPhyRate::RateMcs1Lgi => "Mcs1Lgi"@,
        WifiPhyRate::RateMcs2Lgi => "Mcs2Lgi"@,
        WifiPhyRate::RateMcs3Lgi => "Mcs3Lgi"@,
        WifiPhyRate::RateMcs4Lgi => "Mcs4Lgi"@,
        WifiPhyRate::RateMcs5Lgi => "Mcs5Lgi"@,
        WifiPhyRate::RateMcs6Lgi => "Mcs6Lgi"@,
        WifiPhyRate::RateMcs7Lgi => "Mcs7Lgi"@,
        WifiPhyRate::RateMcs0Sgi => "Mcs0Sgi"@,
        WifiPhyRate::RateMcs1Sgi => "Mcs1Sgi"@,
        WifiPhyRate::RateMcs2Sgi => "Mcs2Sgi"@,
        WifiPhyRate::RateMcs3Sgi => "Mcs3Sgi"@,
        WifiPhyRate::RateMcs4Sgi => "Mcs4Sgi"@,
        WifiPhyRate::RateMcs5Sgi => "Mcs5Sgi"@,
        WifiPhyRate::RateMcs6Sgi => "Mcs6Sgi"@,
        WifiPhyRate::RateMcs7Sgi => "Mcs7Sgi"@,
        WifiPhyRate::RateLora250k => "Lora250k"@,
        WifiPhyRate::RateLora500k => "Lora500k"@,
        WifiPhyRate::RateMax => "Max"@,
    }
}

/// The rate carrying the given short name, if any.
pub open spec fn spec_rate_of_name(s: Seq<char>) -> Option<WifiPhyRate> {
    if s == spec_rate_name(WifiPhyRate::Rate1mL) {
        Some(WifiPhyRate::Rate1mL)
    } else if s == spec_rate_name(WifiPhyRate::Rate2m) {
        Some(WifiPhyRate::Rate2m)
    } else if s == spec_rate_name(WifiPhyRate::Rate5mL) {
        Some(WifiPhyRate::Rate5mL)
    } else if s == spec_rate_name(WifiPhyRate::Rate11mL) {
        Some(WifiPhyRate::Rate11mL)
    } else if s == spec_rate_name(WifiPhyRate::Rate2mS) {
        Some(WifiPhyRate::Rate2mS)
    } else if s == spec_rate_name(WifiPhyRate::Rate5mS) {
        Some(WifiPhyRate::Rate5mS)
    } else if s == spec_rate_name(WifiPhyRate::Rate11mS) {
        Some(WifiPhyRate::Rate11mS)
    } else if s == spec_rate_name(WifiPhyRate::Rate48m) {
        Some(WifiPhyRate::Rate48m)
    } else if s == spec_rate_name(WifiPhyRate::Rate24m) {
        Some(WifiPhyRate::Rate24m)
    } else if s == spec_rate_name(WifiPhyRate::Rate12m) {
        Some(WifiPhyRate::Rate12m)
    } else if s == spec_rate_name(WifiPhyRate::Rate6m) {
        Some(WifiPhyRate::Rate6m)
    } else if s == spec_rate_name(WifiPhyRate::Rate54m) {
        Some(WifiPhyRate::Rate54m)
    } else if s == spec_rate_name(WifiPhyRate::Rate36m) {
        Some(WifiPhyRate::Rate36m)
    } else if s == spec_rate_name(WifiPhyRate::Rate18m) {
        Some(WifiPhyRate::Rate18m)
    } else if s == spec_rate_name(WifiPhyRate::Rate9m) {
        Some(WifiPhyRate::Rate9m)
    } else if s == spec_rate_name(WifiPhyRate::RateMcs0Lgi) {
        Some(WifiPhyRate::RateMcs0Lgi)
    } else if s == spec_rate_name(WifiPhyRate::RateMcs1Lgi) {
        Some(WifiPhyRate::RateMcs1Lgi)
    } else if s == spec_rate_name(WifiPhyRate::RateMcs2Lgi) {
        Some(WifiPhyRate::RateMcs2Lgi)
    } else if s == spec_rate_name(WifiPhyRate::RateMcs3Lgi) {
        Some(WifiPhyRate::RateMcs3Lgi)
    } else if s == spec_rate_name(WifiPhyRate::RateMcs4Lgi) {
        Some(WifiPhyRate::RateMcs4Lgi)
    } else if s == spec_rate_name(WifiPhyRate::RateMcs5Lgi) {
        Some(WifiPhyRate::RateMcs5Lgi)
    } else if s == spec_rate_name(WifiPhyRate::RateMcs6Lgi) {
        Some(WifiPhyRate::RateMcs6Lgi)
    } else if s == spec_rate_name(WifiPhyRate::RateMcs7Lgi) {
        Some(WifiPhyRate::RateMcs7Lgi)
    } else if s == spec_rate_name(WifiPhyRate::RateMcs0Sgi) {
        Some(WifiPhyRate::RateMcs0Sgi)
    } else if s == spec_rate_name(WifiPhyRate::RateMcs1Sgi) {
        Some(WifiPhyRate::RateMcs1Sgi)
    } else if s == spec_rate_name(WifiPhyRate::RateMcs2Sgi) {
        Some(WifiPhyRate::RateMcs2Sgi)
    } else if s == spec_rate_name(WifiPhyRate::RateMcs3Sgi) {
        Some(WifiPhyRate::RateMcs3Sgi)
    } else if s == spec_rate_name(WifiPhyRate::RateMcs4Sgi) {
        Some(WifiPhyRate::RateMcs4Sgi)
    } else if s == spec_rate_name(WifiPhyRate::RateMcs5Sgi) {
        Some(WifiPhyRate::RateMcs5Sgi)
    } else if s == spec_rate_name(WifiPhyRate::RateMcs6Sgi) {
        Some(WifiPhyRate::RateMcs6Sgi)
    } else if s == spec_rate_name(WifiPhyRate::RateMcs7Sgi) {
        Some(WifiPhyRate::RateMcs7Sgi)
    } else if s == spec_rate_name(WifiPhyRate::RateLora250k) {
        Some(WifiPhyRate::RateLora250k)
    } else if s == spec_rate_name(WifiPhyRate::RateLora500k) {
        Some(WifiPhyRate::RateLora500k)
    } else if s == spec_rate_name(WifiPhyRate::RateMax) {
        Some(WifiPhyRate::RateMax)
    } else {
        None
    }
}

impl WifiPhyRate {
    /// Wire ordinal of this rate.
    pub fn to_index(&self) -> (r: u32)
        ensures
            r == spec_rate_index(*self),
    {
        match self {
            WifiPhyRate::Rate1mL => 0,
            WifiPhyRate::Rate2m => 1,
            WifiPhyRate::Rate5mL => 2,
            WifiPhyRate::Rate11mL => 3,
            WifiPhyRate::Rate2mS => 4,
            WifiPhyRate::Rate5mS => 5,
            WifiPhyRate::Rate11mS => 6,
            WifiPhyRate::Rate48m => 7,
            WifiPhyRate::Rate24m => 8,
            WifiPhyRate::Rate12m => 9,
            WifiPhyRate::Rate6m => 10,
            WifiPhyRate::Rate54m => 11,
            WifiPhyRate::Rate36m => 12,
            WifiPhyRate::Rate18m => 13,
            WifiPhyRate::Rate9m => 14,
            WifiPhyRate::RateMcs0Lgi => 15,
            WifiPhyRate::RateMcs1Lgi => 16,
            WifiPhyRate::RateMcs2Lgi => 17,
            WifiPhyRate::RateMcs3Lgi => 18,
            WifiPhyRate::RateMcs4Lgi => 19,
            WifiPhyRate::RateMcs5Lgi => 20,
            WifiPhyRate::RateMcs6Lgi => 21,
            WifiPhyRate::RateMcs7Lgi => 22,
            WifiPhyRate::RateMcs0Sgi => 23,
            WifiPhyRate::RateMcs1Sgi => 24,
            WifiPhyRate::RateMcs2Sgi => 25,
            WifiPhyRate::RateMcs3Sgi => 26,
            WifiPhyRate::RateMcs4Sgi => 27,
            WifiPhyRate::RateMcs5Sgi => 28,
            WifiPhyRate::RateMcs6Sgi => 29,
            WifiPhyRate::RateMcs7Sgi => 30,
            WifiPhyRate::RateLora250k => 31,
            WifiPhyRate::RateLora500k => 32,
            WifiPhyRate::RateMax => 33,
        }
    }

    /// The rate with the given wire ordinal; `None` when the ordinal is
    /// out of range.
    pub fn from_index(v: u32) -> (r: Option<WifiPhyRate>)
        ensures
            r == spec_rate_from_index(v),
    {
        match v {
            0 => Some(WifiPhyRate::Rate1mL),
            1 => Some(WifiPhyRate::Rate2m),
            2 => Some(WifiPhyRate::Rate5mL),
            3 => Some(WifiPhyRate::Rate11mL),
            4 => Some(WifiPhyRate::Rate2mS),
            5 => Some(WifiPhyRate::Rate5mS),
            6 => Some(WifiPhyRate::Rate11mS),
            7 => Some(WifiPhyRate::Rate48m),
            8 => Some(WifiPhyRate::Rate24m),
            9 => Some(WifiPhyRate::Rate12m),
            10 => Some(WifiPhyRate::Rate6m),
            11 => Some(WifiPhyRate::Rate54m),
            12 => Some(WifiPhyRate::Rate36m),
            13 => Some(WifiPhyRate::Rate18m),
            14 => Some(WifiPhyRate::Rate9m),
            15 => Some(WifiPhyRate::RateMcs0Lgi),
            16 => Some(WifiPhyRate::RateMcs1Lgi),
            17 => Some(WifiPhyRate::RateMcs2Lgi),
            18 => Some(WifiPhyRate::RateMcs3Lgi),
            19 => Some(WifiPhyRate::RateMcs4Lgi),
            20 => Some(WifiPhyRate::RateMcs5Lgi),
            21 => Some(WifiPhyRate::RateMcs6Lgi),
            22 => Some(WifiPhyRate::RateMcs7Lgi),
            23 => Some(WifiPhyRate::RateMcs0Sgi),
            24 => Some(WifiPhyRate::RateMcs1Sgi),
            25 => Some(WifiPhyRate::RateMcs2Sgi),
            26 => Some(WifiPhyRate::RateMcs3Sgi),
            27 => Some(WifiPhyRate::RateMcs4Sgi),
            28 => Some(WifiPhyRate::RateMcs5Sgi),
            29 => Some(WifiPhyRate::RateMcs6Sgi),
            30 => Some(WifiPhyRate::RateMcs7Sgi),
            31 => Some(WifiPhyRate::RateLora250k),
            32 => Some(WifiPhyRate::RateLora500k),
            33 => Some(WifiPhyRate::RateMax),
            _ => None,
        }
    }

    /// Short textual name of this rate.
    pub fn name(&self) -> (r: String)
        ensures
            r@ == spec_rate_name(*self),
    {
        match self {
            WifiPhyRate::Rate1mL => String::from_str("1mL"),
            WifiPhyRate::Rate2m => String::from_str("2m"),
            WifiPhyRate::Rate5mL => String::from_str("5mL"),
            WifiPhyRate::Rate11mL => String::from_str("11mL"),
            WifiPhyRate::Rate2mS => String::from_str("2mS"),
            WifiPhyRate::Rate5mS => String::from_str("5mS"),
            WifiPhyRate::Rate11mS => String::from_str("11mS"),
            WifiPhyRate::Rate48m => String::from_str("48m"),
            WifiPhyRate::Rate24m => String::from_str("24m"),
            WifiPhyRate::Rate12m => String::from_str("12m"),
            WifiPhyRate::Rate6m => String::from_str("6m"),
            WifiPhyRate::Rate54m => String::from_str("54m"),
            WifiPhyRate::Rate36m => String::from_str("36m"),
            WifiPhyRate::Rate18m => String::from_str("18m"),
            WifiPhyRate::Rate9m => String::from_str("9m"),
            WifiPhyRate::RateMcs0Lgi => String::from_str("Mcs0Lgi"),
            WifiPhyRate::RateMcs1Lgi => String::from_str("Mcs1Lgi"),
            WifiPhyRate::RateMcs2Lgi => String::from_str("Mcs2Lgi"),
            WifiPhyRate::RateMcs3Lgi => String::from_str("Mcs3Lgi"),
            WifiPhyRate::RateMcs4Lgi => String::from_str("Mcs4Lgi"),
            WifiPhyRate::RateMcs5Lgi => String::from_str("Mcs5Lgi"),
            WifiPhyRate::RateMcs6Lgi => String::from_str("Mcs6Lgi"),
            WifiPhyRate::RateMcs7Lgi => String::from_str("Mcs7Lgi"),
            WifiPhyRate::RateMcs0Sgi => String::from_str("Mcs0Sgi"),
            WifiPhyRate::RateMcs1Sgi => String::from_str("Mcs1Sgi"),
            WifiPhyRate::RateMcs2Sgi => String::from_str("Mcs2Sgi"),
            WifiPhyRate::RateMcs3Sgi => String::from_str("Mcs3Sgi"),
            WifiPhyRate::RateMcs4Sgi => String::from_str("Mcs4Sgi"),
            WifiPhyRate::RateMcs5Sgi => String::from_str("Mcs5Sgi"),
            WifiPhyRate::RateMcs6Sgi => String::from_str("Mcs6Sgi"),
            WifiPhyRate::RateMcs7Sgi => String::from_str("Mcs7Sgi"),
            WifiPhyRate::RateLora250k => String::from_str("Lora250k"),
            WifiPhyRate::RateLora500k => String::from_str("Lora500k"),
            WifiPhyRate::RateMax => String::from_str("Max"),
        }
    }

    /// The rate carrying the given short name; fails on any other text,
    /// case-sensitively.
    pub fn from_name(s: &str) -> (r: Result<WifiPhyRate, ParseWifiPhyRateError>)
        ensures
            match r {
                Ok(v) => spec_rate_of_name(s@) == Some(v),
                Err(ParseWifiPhyRateError) => spec_rate_of_name(s@) is None,
            },
    {
        if str_eq(s, "1mL") {
            Ok(WifiPhyRate::Rate1mL)
        } else if str_eq(s, "2m") {
            Ok(WifiPhyRate::Rate2m)
        } else if str_eq(s, "5mL") {
            Ok(WifiPhyRate::Rate5mL)
        } else if str_eq(s, "11mL") {
            Ok(WifiPhyRate::Rate11mL)
        } else if str_eq(s, "2mS") {
            Ok(WifiPhyRate::Rate2mS)
        } else if str_eq(s, "5mS") {
            Ok(WifiPhyRate::Rate5mS)
        } else if str_eq(s, "11mS") {
            Ok(WifiPhyRate::Rate11mS)
        } else if str_eq(s, "48m") {
            Ok(WifiPhyRate::Rate48m)
        } else if str_eq(s, "24m") {
            Ok(WifiPhyRate::Rate24m)
        } else if str_eq(s, "12m") {
            Ok(WifiPhyRate::Rate12m)
        } else if str_eq(s, "6m") {
            Ok(WifiPhyRate::Rate6m)
        } else if str_eq(s, "54m") {
            Ok(WifiPhyRate::Rate54m)
        } else if str_eq(s, "36m") {
            Ok(WifiPhyRate::Rate36m)
        } else if str_eq(s, "18m") {
            Ok(WifiPhyRate::Rate18m)
        } else if str_eq(s, "9m") {
            Ok(WifiPhyRate::Rate9m)
        } else if str_eq(s, "Mcs0Lgi") {
            Ok(WifiPhyRate::RateMcs0Lgi)
        } else if str_eq(s, "Mcs1Lgi") {
            Ok(WifiPhyRate::RateMcs1Lgi)
        } else if str_eq(s, "Mcs2Lgi") {
            Ok(WifiPhyRate::RateMcs2Lgi)
        } else if str_eq(s, "Mcs3Lgi") {
            Ok(WifiPhyRate::RateMcs3Lgi)
        } else if str_eq(s, "Mcs4Lgi") {
            Ok(WifiPhyRate::RateMcs4Lgi)
        } else if str_eq(s, "Mcs5Lgi") {
            Ok(WifiPhyRate::RateMcs5Lgi)
        } else if str_eq(s, "Mcs6Lgi") {
            Ok(WifiPhyRate::RateMcs6Lgi)
        } else if str_eq(s, "Mcs7Lgi") {
            Ok(WifiPhyRate::RateMcs7Lgi)
        } else if str_eq(s, "Mcs0Sgi") {
            Ok(WifiPhyRate::RateMcs0Sgi)
        } else if str_eq(s, "Mcs1Sgi") {
            Ok(WifiPhyRate::RateMcs1Sgi)
        } else if str_eq(s, "Mcs2Sgi") {
            Ok(WifiPhyRate::RateMcs2Sgi)
        } else if str_eq(s, "Mcs3Sgi") {
            Ok(WifiPhyRate::RateMcs3Sgi)
        } else if str_eq(s, "Mcs4Sgi") {
            Ok(WifiPhyRate::RateMcs4Sgi)
        } else if str_eq(s, "Mcs5Sgi") {
            Ok(WifiPhyRate::RateMcs5Sgi)
        } else if str_eq(s, "Mcs6Sgi") {
            Ok(WifiPhyRate::RateMcs6Sgi)
        } else if str_eq(s, "Mcs7Sgi") {
            Ok(WifiPhyRate::RateMcs7Sgi)
        } else if str_eq(s, "Lora250k") {
            Ok(WifiPhyRate::RateLora250k)
        } else if str_eq(s, "Lora500k") {
            Ok(WifiPhyRate::RateLora500k)
        } else if str_eq(s, "Max") {
            Ok(WifiPhyRate::RateMax)
        } else {
            Err(ParseWifiPhyRateError)
        }
    }
}

/// Every rate's ordinal maps back to the rate, and every in-range ordinal
/// maps to a rate with that ordinal.
pub proof fn lemma_rate_index_round_trip(r: WifiPhyRate, v: u32)
    ensures
        spec_rate_from_index(spec_rate_index(r)) == Some(r),
        spec_rate_from_index(v) matches Some(q) ==> spec_rate_index(q) == v,
{
}

} // verus!
