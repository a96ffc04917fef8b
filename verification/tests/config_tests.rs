use nimbus::config::{parse_location, resolve, Config, Coordinates, Settings, Unit};
use nimbus::error::ConfigError;

fn file_settings() -> Settings {
    Settings {
        latitude: Some("45.523".to_string()),
        longitude: Some("-122.676".to_string()),
        token: Some("SECRET-REDACTED".to_string()),
        language: None,
        unit: Some("si".to_string()),
    }
}

#[test]
fn resolve_takes_file_values() {
    let c = resolve(&Settings::empty(), &Settings::empty(), &file_settings()).unwrap();
    assert_eq!(c.coordinates.latitude, "45.523");
    assert_eq!(c.coordinates.longitude, "-122.676");
    assert_eq!(c.token, "SECRET-REDACTED");
    assert_eq!(c.language, None);
    assert_eq!(c.unit, Some(Unit::Si));
}

#[test]
fn resolve_precedence_cli_env_file() {
    let mut cli = Settings::empty();
    cli.latitude = Some("1.0".to_string());
    cli.longitude = Some("2.0".to_string());
    let mut env = Settings::empty();
    env.latitude = Some("3.0".to_string());
    env.longitude = Some("4.0".to_string());
    env.language = Some("de".to_string());
    let c = resolve(&cli, &env, &file_settings()).unwrap();
    assert_eq!(c.coordinates.latitude, "1.0");
    assert_eq!(c.coordinates.longitude, "2.0");
    assert_eq!(c.language, Some("de".to_string()));
    assert_eq!(c.token, "SECRET-REDACTED");
}

#[test]
fn resolve_defaults() {
    let c = resolve(&Settings::empty(), &Settings::empty(), &file_settings()).unwrap();
    assert_eq!(c.language_or_default(), "en");
    let mut file = file_settings();
    file.unit = None;
    let c = resolve(&Settings::empty(), &Settings::empty(), &file).unwrap();
    assert_eq!(c.unit, None);
    assert_eq!(c.unit_or_default(), Unit::Auto);
}

#[test]
fn resolve_errors() {
    let mut no_token = file_settings();
    no_token.token = None;
    assert_eq!(
        resolve(&Settings::empty(), &Settings::empty(), &no_token),
        Err(ConfigError::MissingToken)
    );

    let mut empty_token = file_settings();
    empty_token.token = Some(String::new());
    assert_eq!(
        resolve(&Settings::empty(), &Settings::empty(), &empty_token),
        Err(ConfigError::EmptyToken)
    );

    let mut no_coords = file_settings();
    no_coords.latitude = None;
    assert_eq!(
        resolve(&Settings::empty(), &Settings::empty(), &no_coords),
        Err(ConfigError::MissingCoordinates)
    );

    let mut bad_coord = file_settings();
    bad_coord.longitude = Some("east".to_string());
    assert_eq!(
        resolve(&Settings::empty(), &Settings::empty(), &bad_coord),
        Err(ConfigError::InvalidCoordinate)
    );

    let mut bad_unit = file_settings();
    bad_unit.unit = Some("metric".to_string());
    assert_eq!(
        resolve(&Settings::empty(), &Settings::empty(), &bad_unit),
        Err(ConfigError::InvalidUnit)
    );
}

#[test]
fn unit_codes() {
    assert_eq!(Unit::from_code("auto"), Some(Unit::Auto));
    assert_eq!(Unit::from_code("ca"), Some(Unit::Ca));
    assert_eq!(Unit::from_code("uk2"), Some(Unit::Uk2));
    assert_eq!(Unit::from_code("us"), Some(Unit::Us));
    assert_eq!(Unit::from_code("si"), Some(Unit::Si));
    assert_eq!(Unit::from_code("metric"), None);
    for u in [Unit::Auto, Unit::Ca, Unit::Uk2, Unit::Us, Unit::Si] {
        assert_eq!(Unit::from_code(u.code()), Some(u));
    }
}

#[test]
fn location_argument_splits_at_colon() {
    let (lat, lon) = parse_location("45.523:-122.676").unwrap();
    assert_eq!(lat, "45.523");
    assert_eq!(lon, "-122.676");
    assert_eq!(parse_location("45.523"), None);
    let (lat, lon) = parse_location(":").unwrap();
    assert_eq!(lat, "");
    assert_eq!(lon, "");
}

#[test]
fn coordinate_shapes() {
    assert!(nimbus::text::check_decimal("45.523"));
    assert!(nimbus::text::check_decimal("-122.676"));
    assert!(nimbus::text::check_decimal("7"));
    assert!(!nimbus::text::check_decimal(""));
    assert!(!nimbus::text::check_decimal("-"));
    assert!(!nimbus::text::check_decimal("1."));
    assert!(!nimbus::text::check_decimal(".5"));
    assert!(!nimbus::text::check_decimal("1.2.3"));
    assert!(!nimbus::text::check_decimal("12a"));
}

#[test]
fn config_round_trips_through_its_file_format() {
    let text = "token = \"SECRET-REDACTED\"\nlanguage = \"en\"\nunit = \"si\"\n\n[coordinates]\nlatitude = 45.523\nlongitude = -122.676\n";
    let loaded: toml::Value = toml::from_str(text).unwrap();
    let file = Settings {
        latitude: Some(loaded["coordinates"]["latitude"].as_float().unwrap().to_string()),
        longitude: Some(loaded["coordinates"]["longitude"].as_float().unwrap().to_string()),
        token: Some(loaded["token"].as_str().unwrap().to_string()),
        language: Some(loaded["language"].as_str().unwrap().to_string()),
        unit: Some(loaded["unit"].as_str().unwrap().to_string()),
    };
    let config = resolve(&Settings::empty(), &Settings::empty(), &file).unwrap();

    let rewritten = config.to_toml();
    assert_eq!(rewritten, text);

    let reloaded: toml::Value = toml::from_str(&rewritten).unwrap();
    assert_eq!(reloaded, loaded);
    assert_eq!(reloaded["coordinates"]["latitude"].as_float(), Some(45.523));
    assert_eq!(reloaded["coordinates"]["longitude"].as_float(), Some(-122.676));
}

#[test]
fn serializer_exact_output() {
    let config = Config {
        coordinates: Coordinates {
            latitude: "1.5".to_string(),
            longitude: "-2.25".to_string(),
        },
        token: "SECRET-REDACTED".to_string(),
        language: None,
        unit: None,
    };
    assert_eq!(
        config.to_toml(),
        "token = \"SECRET-REDACTED\"\n\n[coordinates]\nlatitude = 1.5\nlongitude = -2.25\n"
    );
}
