//! Weather-report library: translates upstream forecast condition codes to
//! display glyphs, summarizes a forecast payload into display records, and
//! resolves user configuration.

use vstd::prelude::*;

pub mod config;
pub mod error;
pub mod forecast;
pub mod icons;
pub mod moon;
pub mod text;

use crate::error::{Error, Field};
use crate::forecast::{
    current_line_seq, current_missing, current_of, daily_line_seq, daily_missing, daily_of,
    CurrentConditions, CurrentConditionsV, DailyOutlook, DailyOutlookV, Payload, PayloadV,
};

verus! {

/// Mathematical model of a report.
pub struct ReportV {
    pub current: CurrentConditionsV,
    pub daily: DailyOutlookV,
}

/// The finished report: the two display records derived from a payload.
pub struct Report {
    pub current: CurrentConditions,
    pub daily: DailyOutlook,
}

impl View for Report {
    type V = ReportV;

    open spec fn view(&self) -> ReportV {
        ReportV { current: self.current@, daily: self.daily@ }
    }
}

impl Report {
    /// Render the current-conditions report line.
    pub fn current_line(&self) -> (r: String)
        ensures
            r@ == current_line_seq(self@.current),
    {
        self.current.format()
    }

    /// Render the daily report line.
    pub fn daily_line(&self) -> (r: String)
        ensures
            r@ == daily_line_seq(self@.daily),
    {
        self.daily.format()
    }
}

/// The first required field missing from a payload, if any: the
/// `currently` block and its fields come first, then the `daily` data
/// (absent or empty) and the fields of its first entry.
pub open spec fn payload_missing(p: PayloadV) -> Option<Field> {
    if p.currently is None {
        Some(Field::Currently)
    } else if current_missing(p.currently.unwrap()) is Some {
        current_missing(p.currently.unwrap())
    } else if p.daily is None || p.daily.unwrap().len() == 0 {
        Some(Field::Daily)
    } else if daily_missing(p.daily.unwrap()[0]) is Some {
        daily_missing(p.daily.unwrap()[0])
    } else {
        None
    }
}

/// Summarize a forecast payload into the report shown to the user.
///
/// Succeeds exactly when every required field is present; otherwise
/// fails with `MissingField` naming the first absent field, producing
/// no partial report.
pub fn run(payload: &Payload) -> (r: Result<Report, Error>)
    ensures
        match r {
            Ok(rep) => payload_missing(payload@) is None
                && rep@.current == current_of(payload@.currently.unwrap())
                && rep@.daily == daily_of(payload@.daily.unwrap()[0]),
            Err(e) => payload_missing(payload@) matches Some(f) && e == Error::MissingField(f),
        },
{
    let block = match &payload.currently {
        Some(b) => b,
        None => {
            return Err(Error::MissingField(Field::Currently));
        },
    };
    let current = match CurrentConditions::from_block(block) {
        Ok(c) => c,
        Err(e) => {
            return Err(e);
        },
    };
    let data = match &payload.daily {
        Some(d) => d,
        None => {
            return Err(Error::MissingField(Field::Daily));
        },
    };
    if data.len() == 0 {
        return Err(Error::MissingField(Field::Daily));
    }
    let daily = match DailyOutlook::from_entry(&data[0]) {
        Ok(o) => o,
        Err(e) => {
            return Err(e);
        },
    };
    Ok(Report { current, daily })
}

} // verus!

