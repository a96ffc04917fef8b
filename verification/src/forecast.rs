//! The forecast summarizer: turns the optional nested blocks of a raw
//! forecast payload into display records, and renders the two report
//! lines.  A required field that is absent is a `MissingField` error;
//! alternatively a caller may ask for the default record in place of a
//! failure (the policy is the caller's choice, not fixed here).

use vstd::prelude::*;
use vstd::string::*;

use crate::error::{Error, Field};
use crate::icons::{glyph_seq, icon_for, get_icon, DisplayIcon, ForecastIcon};

verus! {

/// Mathematical model of a `currently` block.
pub struct CurrentlyBlockV {
    pub icon: Option<ForecastIcon>,
    pub summary: Option<Seq<char>>,
    pub temperature: Option<Seq<char>>,
    pub pressure: Option<Seq<char>>,
}

/// The `currently` block of a forecast payload, after decoding: every
/// field the upstream schema marks optional is an `Option` here.
/// Numbers are carried as the decimal text the payload gave, so they are
/// printed exactly as received.
pub struct CurrentlyBlock {
    pub icon: Option<ForecastIcon>,
    pub summary: Option<String>,
    pub temperature: Option<String>,
    pub pressure: Option<String>,
}

impl View for CurrentlyBlock {
    type V = CurrentlyBlockV;

    open spec fn view(&self) -> CurrentlyBlockV {
        CurrentlyBlockV {
            icon: self.icon,
            summary: self.summary.deep_view(),
            temperature: self.temperature.deep_view(),
            pressure: self.pressure.deep_view(),
        }
    }
}

impl DeepView for CurrentlyBlock {
    type V = CurrentlyBlockV;

    open spec fn deep_view(&self) -> CurrentlyBlockV {
        self.view()
    }
}

/// Mathematical model of one entry of the `daily` block's data list.
pub struct DailyEntryV {
    pub icon: Option<ForecastIcon>,
    pub summary: Option<Seq<char>>,
}

/// One entry of the `daily` block's data list.
pub struct DailyEntry {
    pub icon: Option<ForecastIcon>,
    pub summary: Option<String>,
}

impl View for DailyEntry {
    type V = DailyEntryV;

    open spec fn view(&self) -> DailyEntryV {
        DailyEntryV { icon: self.icon, summary: self.summary.deep_view() }
    }
}

impl DeepView for DailyEntry {
    type V = DailyEntryV;

    open spec fn deep_view(&self) -> DailyEntryV {
        self.view()
    }
}

/// Mathematical model of a forecast payload.
pub struct PayloadV {
    pub currently: Option<CurrentlyBlockV>,
    pub daily: Option<Seq<DailyEntryV>>,
}

/// A raw forecast payload: the `currently` block and the `daily` block's
/// data list, each of which the upstream schema allows to be absent.
pub struct Payload {
    pub currently: Option<CurrentlyBlock>,
    pub daily: Option<Vec<DailyEntry>>,
}

impl View for Payload {
    type V = PayloadV;

    open spec fn view(&self) -> PayloadV {
        PayloadV { currently: self.currently.deep_view(), daily: self.daily.deep_view() }
    }
}

/// Mathematical model of the current-conditions record.
pub struct CurrentConditionsV {
    pub icon: DisplayIcon,
    pub summary: Seq<char>,
    pub temperature: Seq<char>,
    pub pressure: Seq<char>,
}

/// Present-moment conditions, ready for display.  Temperature and
/// pressure keep the decimal text the payload gave.
pub struct CurrentConditions {
    pub icon: DisplayIcon,
    pub summary: String,
    pub temperature: String,
    pub pressure: String,
}

impl View for CurrentConditions {
    type V = CurrentConditionsV;

    open spec fn view(&self) -> CurrentConditionsV {
        CurrentConditionsV {
            icon: self.icon,
            summary: self.summary@,
            temperature: self.temperature@,
            pressure: self.pressure@,
        }
    }
}

/// Mathematical model of the daily-outlook record.
pub struct DailyOutlookV {
    pub icon: DisplayIcon,
    pub summary: Seq<char>,
}

/// The outlook derived from the first entry of the daily data.
pub struct DailyOutlook {
    pub icon: DisplayIcon,
    pub summary: String,
}

impl View for DailyOutlook {
    type V = DailyOutlookV;

    open spec fn view(&self) -> DailyOutlookV {
        DailyOutlookV { icon: self.icon, summary: self.summary@ }
    }
}

/// The first required field missing from a `currently` block, if any.
pub open spec fn current_missing(b: CurrentlyBlockV) -> Option<Field> {
    if b.icon is None {
        Some(Field::CurrentIcon)
    } else if b.summary is None {
        Some(Field::CurrentSummary)
    } else if b.temperature is None {
        Some(Field::CurrentTemperature)
    } else if b.pressure is None {
        Some(Field::CurrentPressure)
    } else {
        None
    }
}

/// The record derived from a complete `currently` block.
pub open spec fn current_of(b: CurrentlyBlockV) -> CurrentConditionsV
    recommends
        current_missing(b) is None,
{
    CurrentConditionsV {
        icon: icon_for(b.icon.unwrap()),
        summary: b.summary.unwrap(),
        temperature: b.temperature.unwrap(),
        pressure: b.pressure.unwrap(),
    }
}

/// The first required field missing from a daily entry, if any.
pub open spec fn daily_missing(d: DailyEntryV) -> Option<Field> {
    if d.icon is None {
        Some(Field::DailyIcon)
    } else if d.summary is None {
        Some(Field::DailySummary)
    } else {
        None
    }
}

/// The outlook derived from a complete daily entry.
pub open spec fn daily_of(d: DailyEntryV) -> DailyOutlookV
    recommends
        daily_missing(d) is None,
{
    DailyOutlookV { icon: icon_for(d.icon.unwrap()), summary: d.summary.unwrap() }
}

/// The default current-conditions record, shown when the caller chooses
/// a substitute over a failure.
pub open spec fn default_current() -> CurrentConditionsV {
    CurrentConditionsV {
        icon: DisplayIcon::Na,
        summary: "Weather not available"@,
        temperature: "0"@,
        pressure: "0"@,
    }
}

/// The current-conditions report line: glyph, space, temperature, the
/// degree sign, space, summary.
pub open spec fn current_line_seq(c: CurrentConditionsV) -> Seq<char> {
    glyph_seq(c.icon) + " "@ + c.temperature + "\u{00b0} "@ + c.summary
}

/// The daily report line: glyph, space, summary.
pub open spec fn daily_line_seq(d: DailyOutlookV) -> Seq<char> {
    glyph_seq(d.icon) + " "@ + d.summary
}

impl CurrentConditions {
    /// Derive the current conditions from a `currently` block; fails with
    /// `MissingField` naming the first absent required field, and never
    /// returns a partially populated record.
    pub fn from_block(b: &CurrentlyBlock) -> (r: Result<CurrentConditions, Error>)
        ensures
            match r {
                Ok(c) => current_missing(b@) is None && c@ == current_of(b@),
                Err(e) => current_missing(b@) matches Some(f) && e == Error::MissingField(f),
            },
    {
        let icon = match b.icon {
            Some(i) => i,
            None => {
                return Err(Error::MissingField(Field::CurrentIcon));
            },
        };
        let summary = match &b.summary {
            Some(s) => s.clone(),
            None => {
                return Err(Error::MissingField(Field::CurrentSummary));
            },
        };
        let temperature = match &b.temperature {
            Some(s) => s.clone(),
            None => {
                return Err(Error::MissingField(Field::CurrentTemperature));
            },
        };
        let pressure = match &b.pressure {
            Some(s) => s.clone(),
            None => {
                return Err(Error::MissingField(Field::CurrentPressure));
            },
        };
        Ok(CurrentConditions { icon: get_icon(icon), summary, temperature, pressure })
    }

    /// Derive the current conditions, substituting the default record for
    /// an absent or incomplete block: the caller-chosen alternative to
    /// failing.
    pub fn or_default(b: Option<&CurrentlyBlock>) -> (r: CurrentConditions)
        ensures
            match b {
                Some(blk) => r@ == if current_missing(blk@) is None {
                    current_of(blk@)
                } else {
                    default_current()
                },
                None => r@ == default_current(),
            },
    {
        match b {
            Some(blk) => match CurrentConditions::from_block(blk) {
                Ok(c) => c,
                Err(_) => CurrentConditions::default(),
            },
            None => CurrentConditions::default(),
        }
    }

    /// Render the current-conditions report line.
    pub fn format(&self) -> (r: String)
        ensures
            r@ == current_line_seq(self@),
    {
        let mut out: String = self.icon.glyph().to_owned();
        out.append(" ");
        out.append(self.temperature.as_str());
        out.append("\u{00b0} ");
        out.append(self.summary.as_str());
        out
    }
}

impl Default for CurrentConditions {
    /// The record shown when no weather data is available.
    fn default() -> (r: Self)
        ensures
            r@ == default_current(),
    {
        CurrentConditions {
            icon: DisplayIcon::Na,
            summary: "Weather not available".to_owned(),
            temperature: "0".to_owned(),
            pressure: "0".to_owned(),
        }
    }
}

impl DailyOutlook {
    /// Derive the daily outlook from one daily entry; fails with
    /// `MissingField` naming the first absent required field.
    pub fn from_entry(d: &DailyEntry) -> (r: Result<DailyOutlook, Error>)
        ensures
            match r {
                Ok(o) => daily_missing(d@) is None && o@ == daily_of(d@),
                Err(e) => daily_missing(d@) matches Some(f) && e == Error::MissingField(f),
            },
    {
        let icon = match d.icon {
            Some(i) => i,
            None => {
                return Err(Error::MissingField(Field::DailyIcon));
            },
        };
        let summary = match &d.summary {
            Some(s) => s.clone(),
            None => {
                return Err(Error::MissingField(Field::DailySummary));
            },
        };
        Ok(DailyOutlook { icon: get_icon(icon), summary })
    }

    /// Render the daily report line.
    pub fn format(&self) -> (r: String)
        ensures
            r@ == daily_line_seq(self@),
    {
        let mut out: String = self.icon.glyph().to_owned();
        out.append(" ");
        out.append(self.summary.as_str());
        out
    }
}

} // verus!
