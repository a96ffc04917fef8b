use nimbus::error::{Error, Field};
use nimbus::forecast::{CurrentConditions, CurrentlyBlock, DailyEntry, DailyOutlook, Payload};
use nimbus::icons::{DisplayIcon, ForecastIcon};

fn clear_currently() -> CurrentlyBlock {
    CurrentlyBlock {
        icon: Some(ForecastIcon::ClearDay),
        summary: Some("Clear".to_string()),
        temperature: Some("72.5".to_string()),
        pressure: Some("1013.0".to_string()),
    }
}

fn showers_entry() -> DailyEntry {
    DailyEntry { icon: Some(ForecastIcon::Rain), summary: Some("Showers".to_string()) }
}

fn well_formed_payload() -> Payload {
    Payload { currently: Some(clear_currently()), daily: Some(vec![showers_entry()]) }
}

#[test]
fn summarizer_well_formed_currently() {
    let c = CurrentConditions::from_block(&clear_currently()).unwrap();
    assert_eq!(c.icon, DisplayIcon::ClearDay);
    assert_eq!(c.summary, "Clear");
    assert_eq!(c.temperature, "72.5");
    assert_eq!(c.pressure, "1013.0");
    assert_eq!(c.format(), "\u{f00d} 72.5\u{00b0} Clear");
}

#[test]
fn summarizer_missing_currently() {
    let p = Payload { currently: None, daily: Some(vec![showers_entry()]) };
    match nimbus::run(&p) {
        Err(Error::MissingField(f)) => {
            assert_eq!(f, Field::Currently);
            assert_eq!(f.name(), "currently");
        },
        _ => panic!("expected a missing-field error for the currently block"),
    }
}

#[test]
fn summarizer_missing_inner_fields() {
    let mut b = clear_currently();
    b.temperature = None;
    match CurrentConditions::from_block(&b) {
        Err(Error::MissingField(f)) => assert_eq!(f, Field::CurrentTemperature),
        _ => panic!("expected a missing-field error for the temperature"),
    }
    let mut b = clear_currently();
    b.icon = None;
    match CurrentConditions::from_block(&b) {
        Err(Error::MissingField(f)) => assert_eq!(f, Field::CurrentIcon),
        _ => panic!("expected a missing-field error for the icon"),
    }
    let d = DailyEntry { icon: Some(ForecastIcon::Rain), summary: None };
    match DailyOutlook::from_entry(&d) {
        Err(Error::MissingField(f)) => assert_eq!(f, Field::DailySummary),
        _ => panic!("expected a missing-field error for the daily summary"),
    }
}

#[test]
fn daily_line_formatting() {
    let o = DailyOutlook::from_entry(&showers_entry()).unwrap();
    assert_eq!(o.icon, DisplayIcon::Rain);
    assert_eq!(o.summary, "Showers");
    assert_eq!(o.format(), "\u{f019} Showers");
}

#[test]
fn run_produces_both_lines() {
    let report = nimbus::run(&well_formed_payload()).unwrap();
    assert_eq!(report.current_line(), "\u{f00d} 72.5\u{00b0} Clear");
    assert_eq!(report.daily_line(), "\u{f019} Showers");
}

#[test]
fn run_missing_daily() {
    let p = Payload { currently: Some(clear_currently()), daily: None };
    match nimbus::run(&p) {
        Err(Error::MissingField(f)) => assert_eq!(f, Field::Daily),
        _ => panic!("expected a missing-field error for the daily block"),
    }
    let p = Payload { currently: Some(clear_currently()), daily: Some(vec![]) };
    match nimbus::run(&p) {
        Err(Error::MissingField(f)) => assert_eq!(f, Field::Daily),
        _ => panic!("expected a missing-field error for the empty daily data"),
    }
}

#[test]
fn default_record_when_chosen() {
    let d = CurrentConditions::default();
    assert_eq!(d.icon, DisplayIcon::Na);
    assert_eq!(d.summary, "Weather not available");
    assert_eq!(d.temperature, "0");
    assert_eq!(d.pressure, "0");
    assert_eq!(d.format(), "\u{f07b} 0\u{00b0} Weather not available");

    let complete = CurrentConditions::or_default(Some(&clear_currently()));
    assert_eq!(complete.summary, "Clear");

    let mut incomplete = clear_currently();
    incomplete.pressure = None;
    let fallback = CurrentConditions::or_default(Some(&incomplete));
    assert_eq!(fallback.icon, DisplayIcon::Na);
    assert_eq!(fallback.summary, "Weather not available");

    let absent = CurrentConditions::or_default(None);
    assert_eq!(absent.icon, DisplayIcon::Na);
}

#[test]
fn error_messages() {
    let e = Error::MissingField(Field::Currently);
    assert_eq!(e.message(), "missing field: currently");
    let e = Error::Config(nimbus::error::ConfigError::NotFound);
    assert_eq!(e.message(), "Configuration file not found.");
    let e = Error::Fetch(nimbus::error::FetchError::Io("refused".to_string()));
    assert_eq!(e.message(), "fetch error: refused");
}
