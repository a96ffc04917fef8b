use nimbus::icons::{DisplayIcon, ForecastIcon};

fn all_forecast_icons() -> Vec<ForecastIcon> {
    vec![
        ForecastIcon::ClearDay,
        ForecastIcon::ClearNight,
        ForecastIcon::Cloudy,
        ForecastIcon::Fog,
        ForecastIcon::Hail,
        ForecastIcon::PartlyCloudyDay,
        ForecastIcon::PartlyCloudyNight,
        ForecastIcon::Rain,
        ForecastIcon::Sleet,
        ForecastIcon::Snow,
        ForecastIcon::Thunderstorm,
        ForecastIcon::Tornado,
        ForecastIcon::Wind,
    ]
}

#[test]
fn translator_is_total_and_injective() {
    let icons = all_forecast_icons();
    let glyphs: Vec<DisplayIcon> = icons.iter().map(|i| nimbus::icons::get_icon(*i)).collect();
    for g in &glyphs {
        assert_ne!(*g, DisplayIcon::Na);
    }
    for i in 0..glyphs.len() {
        for j in 0..glyphs.len() {
            if i != j {
                assert_ne!(glyphs[i], glyphs[j]);
            }
        }
    }
}

#[test]
fn translator_is_deterministic() {
    for icon in all_forecast_icons() {
        let first = nimbus::icons::get_icon(icon);
        let second = nimbus::icons::get_icon(icon);
        assert_eq!(first, second);
    }
}

#[test]
fn translator_expected_glyphs() {
    assert_eq!(nimbus::icons::get_icon(ForecastIcon::ClearDay), DisplayIcon::ClearDay);
    assert_eq!(nimbus::icons::get_icon(ForecastIcon::Rain), DisplayIcon::Rain);
    assert_eq!(nimbus::icons::get_icon(ForecastIcon::Tornado), DisplayIcon::Tornado);
}

#[test]
fn icon_codes_round_trip() {
    for icon in all_forecast_icons() {
        let code = icon.code();
        assert_eq!(ForecastIcon::from_code(code), Some(icon));
    }
}

#[test]
fn icon_code_strings() {
    assert_eq!(ForecastIcon::ClearDay.code(), "clear-day");
    assert_eq!(ForecastIcon::PartlyCloudyNight.code(), "partly-cloudy-night");
    assert_eq!(ForecastIcon::from_code("sleet"), Some(ForecastIcon::Sleet));
    assert_eq!(ForecastIcon::from_code("drizzle"), None);
    assert_eq!(ForecastIcon::from_code(""), None);
    assert_eq!(ForecastIcon::from_code("Clear-Day"), None);
}

#[test]
fn glyphs_are_single_chars() {
    let glyphs = [
        DisplayIcon::ClearDay,
        DisplayIcon::ClearNight,
        DisplayIcon::Cloudy,
        DisplayIcon::Fog,
        DisplayIcon::Hail,
        DisplayIcon::PartlyCloudyDay,
        DisplayIcon::PartlyCloudyNight,
        DisplayIcon::Rain,
        DisplayIcon::Sleet,
        DisplayIcon::Snow,
        DisplayIcon::Thunderstorm,
        DisplayIcon::Tornado,
        DisplayIcon::Wind,
        DisplayIcon::Na,
    ];
    for g in glyphs {
        assert_eq!(g.glyph().chars().count(), 1);
    }
    assert_eq!(DisplayIcon::ClearDay.glyph(), "\u{f00d}");
    assert_eq!(DisplayIcon::Rain.glyph(), "\u{f019}");
    assert_eq!(DisplayIcon::Na.glyph(), "\u{f07b}");
}
