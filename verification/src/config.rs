//! User configuration: the structured record the report driver needs,
//! and its resolution from the sources the tool accepts, in precedence
//! order: command-line flag, environment variable, configuration file,
//! built-in default.

use vstd::prelude::*;
use vstd::string::*;

use crate::error::ConfigError;
use crate::text::{
    check_decimal, find_char, find_first, is_decimal, lemma_decimal_no_newline,
    lemma_split_lines_step, no_newline, split_lines, str_eq,
};

verus! {

/// The unit systems the upstream forecast service accepts.
#[derive(Clone, Copy, Debug, PartialEq, Eq, Structural)]
pub enum Unit {
    Auto,
    Ca,
    Uk2,
    Us,
    Si,
}

/// The code string for each unit system.
pub open spec fn unit_code_seq(u: Unit) -> Seq<char> {
    match u {
        Unit::Auto => "auto"@,
        Unit::Ca => "ca"@,
        Unit::Uk2 => "uk2"@,
        Unit::Us => "us"@,
        Unit::Si => "si"@,
    }
}

/// The unit system denoted by a code string, if any.
pub open spec fn unit_of_code(s: Seq<char>) -> Option<Unit> {
    if s == "auto"@ {
        Some(Unit::Auto)
    } else if s == "ca"@ {
        Some(Unit::Ca)
    } else if s == "uk2"@ {
        Some(Unit::Uk2)
    } else if s == "us"@ {
        Some(Unit::Us)
    } else if s == "si"@ {
        Some(Unit::Si)
    } else {
        None
    }
}

impl Unit {
    /// The code string for this unit system.
    pub fn code(self) -> (r: &'static str)
        ensures
            r@ == unit_code_seq(self),
    {
        match self {
            Unit::Auto => "auto",
            Unit::Ca => "ca",
            Unit::Uk2 => "uk2",
            Unit::Us => "us",
            Unit::Si => "si",
        }
    }

    /// Parse a unit code; `None` for any string outside the accepted set.
    pub fn from_code(s: &str) -> (r: Option<Unit>)
        ensures
            r == unit_of_code(s@),
    {
        if str_eq(s, "auto") {
            Some(Unit::Auto)
        } else if str_eq(s, "ca") {
            Some(Unit::Ca)
        } else if str_eq(s, "uk2") {
            Some(Unit::Uk2)
        } else if str_eq(s, "us") {
            Some(Unit::Us)
        } else if str_eq(s, "si") {
            Some(Unit::Si)
        } else {
            None
        }
    }
}

/// Unit codes denote the unit systems faithfully: decoding the code of
/// a unit yields that unit again.
pub proof fn lemma_unit_code_round_trip(u: Unit)
    ensures
        unit_of_code(unit_code_seq(u)) == Some(u),
{
    reveal_strlit("auto");
    reveal_strlit("ca");
    reveal_strlit("uk2");
    reveal_strlit("us");
    reveal_strlit("si");
    assert("auto"@.len() == 4);
    assert("ca"@.len() == 2);
    assert("uk2"@.len() == 3);
    assert("us"@.len() == 2);
    assert("si"@.len() == 2);
    assert("ca"@[0] == 'c' && "us"@[0] == 'u' && "si"@[0] == 's');
    match u {
        Unit::Auto => assert(unit_of_code(unit_code_seq(u)) == Some(u)),
        Unit::Ca => assert(unit_of_code(unit_code_seq(u)) == Some(u)),
        Unit::Uk2 => assert(unit_of_code(unit_code_seq(u)) == Some(u)),
        Unit::Us => assert(unit_of_code(unit_code_seq(u)) == Some(u)),
        Unit::Si => assert(unit_of_code(unit_code_seq(u)) == Some(u)),
    }
}

/// Mathematical model of the coordinates.
pub struct CoordinatesV {
    pub latitude: Seq<char>,
    pub longitude: Seq<char>,
}

/// The location the forecast is requested for.  Latitude and longitude
/// are carried as decimal-degree text, exactly as the user gave them, so
/// nothing is lost to rounding.
#[derive(Clone, Debug, PartialEq, Eq)]
pub struct Coordinates {
    pub latitude: String,
    pub longitude: String,
}

impl View for Coordinates {
    type V = CoordinatesV;

    open spec fn view(&self) -> CoordinatesV {
        CoordinatesV { latitude: self.latitude@, longitude: self.longitude@ }
    }
}

/// Both coordinates have the shape of a number in decimal degrees.
pub open spec fn coordinates_wf(c: CoordinatesV) -> bool {
    is_decimal(c.latitude) && is_decimal(c.longitude)
}

/// Mathematical model of the configuration.
pub struct ConfigV {
    pub coordinates: CoordinatesV,
    pub token: Seq<char>,
    pub language: Option<Seq<char>>,
    pub unit: Option<Unit>,
}

/// The resolved configuration: immutable after load.
#[derive(Clone, Debug, PartialEq, Eq)]
pub struct Config {
    pub coordinates: Coordinates,
    pub token: String,
    pub language: Option<String>,
    pub unit: Option<Unit>,
}

impl View for Config {
    type V = ConfigV;

    open spec fn view(&self) -> ConfigV {
        ConfigV {
            coordinates: self.coordinates@,
            token: self.token@,
            language: self.language.deep_view(),
            unit: self.unit,
        }
    }
}

/// A well-formed configuration: the token is non-empty and the
/// coordinates are decimal degrees.
pub open spec fn config_wf(c: ConfigV) -> bool {
    c.token.len() > 0 && coordinates_wf(c.coordinates)
}

impl Config {
    /// The language requested, or the built-in default.
    pub fn language_or_default(&self) -> (r: String)
        ensures
            r@ == match self@.language {
                Some(l) => l,
                None => "en"@,
            },
    {
        match &self.language {
            Some(l) => l.clone(),
            None => "en".to_owned(),
        }
    }

    /// The unit system requested, or the built-in default.
    pub fn unit_or_default(&self) -> (r: Unit)
        ensures
            r == match self@.unit {
                Some(u) => u,
                None => Unit::Auto,
            },
    {
        match self.unit {
            Some(u) => u,
            None => Unit::Auto,
        }
    }
}

/// The settings one source offers: any subset of the configurable
/// values, all as the text the source gave.
pub struct SettingsV {
    pub latitude: Option<Seq<char>>,
    pub longitude: Option<Seq<char>>,
    pub token: Option<Seq<char>>,
    pub language: Option<Seq<char>>,
    pub unit: Option<Seq<char>>,
}

/// The settings found in one configuration source: command-line flags,
/// environment variables, or the configuration file.
#[derive(Clone, Debug, PartialEq, Eq)]
pub struct Settings {
    pub latitude: Option<String>,
    pub longitude: Option<String>,
    pub token: Option<String>,
    pub language: Option<String>,
    pub unit: Option<String>,
}

impl View for Settings {
    type V = SettingsV;

    open spec fn view(&self) -> SettingsV {
        SettingsV {
            latitude: self.latitude.deep_view(),
            longitude: self.longitude.deep_view(),
            token: self.token.deep_view(),
            language: self.language.deep_view(),
            unit: self.unit.deep_view(),
        }
    }
}

impl Settings {
    /// A source that offers nothing.
    pub fn empty() -> (r: Settings)
        ensures
            r@.latitude is None,
            r@.longitude is None,
            r@.token is None,
            r@.language is None,
            r@.unit is None,
    {
        Settings { latitude: None, longitude: None, token: None, language: None, unit: None }
    }
}

/// The first value offered, in precedence order.
pub open spec fn pick(
    a: Option<Seq<char>>,
    b: Option<Seq<char>>,
    c: Option<Seq<char>>,
) -> Option<Seq<char>> {
    if a is Some {
        a
    } else if b is Some {
        b
    } else {
        c
    }
}

/// Take the first value offered, in precedence order.
fn pick_setting(a: &Option<String>, b: &Option<String>, c: &Option<String>) -> (r: Option<String>)
    ensures
        r.deep_view() == pick(a.deep_view(), b.deep_view(), c.deep_view()),
{
    match a {
        Some(s) => Some(s.clone()),
        None => match b {
            Some(s) => Some(s.clone()),
            None => match c {
                Some(s) => Some(s.clone()),
                None => None,
            },
        },
    }
}

/// Why resolution fails, if it does: no token offered; an empty token; no
/// coordinates; coordinates that are not decimal degrees; a unit code
/// outside the accepted set.
pub open spec fn resolve_error(cli: SettingsV, env: SettingsV, file: SettingsV) -> Option<
    ConfigError,
> {
    let tok = pick(cli.token, env.token, file.token);
    let lat = pick(cli.latitude, env.latitude, file.latitude);
    let lon = pick(cli.longitude, env.longitude, file.longitude);
    let unit = pick(cli.unit, env.unit, file.unit);
    if tok is None {
        Some(ConfigError::MissingToken)
    } else if tok.unwrap().len() == 0 {
        Some(ConfigError::EmptyToken)
    } else if lat is None || lon is None {
        Some(ConfigError::MissingCoordinates)
    } else if !is_decimal(lat.unwrap()) || !is_decimal(lon.unwrap()) {
        Some(ConfigError::InvalidCoordinate)
    } else if unit matches Some(u) && unit_of_code(u) is None {
        Some(ConfigError::InvalidUnit)
    } else {
        None
    }
}

/// The configuration that resolution yields when it succeeds: for each
/// value the highest-precedence offer, the unit code decoded, the
/// language kept as offered (its default is applied on use).
pub open spec fn resolved_config(cli: SettingsV, env: SettingsV, file: SettingsV) -> ConfigV
    recommends
        resolve_error(cli, env, file) is None,
{
    ConfigV {
        coordinates: CoordinatesV {
            latitude: pick(cli.latitude, env.latitude, file.latitude).unwrap(),
            longitude: pick(cli.longitude, env.longitude, file.longitude).unwrap(),
        },
        token: pick(cli.token, env.token, file.token).unwrap(),
        language: pick(cli.language, env.language, file.language),
        unit: match pick(cli.unit, env.unit, file.unit) {
            Some(u) => unit_of_code(u),
            None => None,
        },
    }
}

/// Resolve the configuration from its three sources, highest precedence
/// first: command-line flags, then environment variables, then the
/// configuration file; built-in defaults fill what remains optional.
/// Succeeds exactly when a non-empty token and decimal coordinates are
/// offered and any offered unit code is one of the accepted set.
pub fn resolve(cli: &Settings, env: &Settings, file: &Settings) -> (r: Result<Config, ConfigError>)
    ensures
        match r {
            Ok(c) => resolve_error(cli@, env@, file@) is None && c@ == resolved_config(
                cli@,
                env@,
                file@,
            ) && config_wf(c@),
            Err(e) => resolve_error(cli@, env@, file@) matches Some(e2) && e == e2,
        },
{
    let token = match pick_setting(&cli.token, &env.token, &file.token) {
        Some(t) => t,
        None => {
            return Err(ConfigError::MissingToken);
        },
    };
    if token.as_str().unicode_len() == 0 {
        return Err(ConfigError::EmptyToken);
    }
    let latitude = match pick_setting(&cli.latitude, &env.latitude, &file.latitude) {
        Some(v) => v,
        None => {
            return Err(ConfigError::MissingCoordinates);
        },
    };
    let longitude = match pick_setting(&cli.longitude, &env.longitude, &file.longitude) {
        Some(v) => v,
        None => {
            return Err(ConfigError::MissingCoordinates);
        },
    };
    if !check_decimal(latitude.as_str()) || !check_decimal(longitude.as_str()) {
        return Err(ConfigError::InvalidCoordinate);
    }
    let unit = match pick_setting(&cli.unit, &env.unit, &file.unit) {
        Some(u) => match Unit::from_code(u.as_str()) {
            Some(x) => Some(x),
            None => {
                return Err(ConfigError::InvalidUnit);
            },
        },
        None => None,
    };
    let language = pick_setting(&cli.language, &env.language, &file.language);
    Ok(Config { coordinates: Coordinates { latitude, longitude }, token, language, unit })
}

/// The two halves of a `LAT:LON` location argument: the text before the
/// first colon and the text after it.
pub open spec fn location_parts(s: Seq<char>) -> Option<(Seq<char>, Seq<char>)> {
    let i: int = find_char(s, ':');
    if i < 0 {
        None
    } else {
        Some((s.subrange(0, i), s.subrange(i + 1, s.len() as int)))
    }
}

/// Split a `LAT:LON` location argument at its first colon; `None` when
/// there is no colon.
pub fn parse_location(s: &str) -> (r: Option<(String, String)>)
    ensures
        match r {
            Some(p) => location_parts(s@) matches Some(q) && p.0@ == q.0 && p.1@ == q.1,
            None => location_parts(s@) is None,
        },
{
    match find_first(s, ':') {
        None => None,
        Some(i) => {
            let n: usize = s.unicode_len();
            let latitude: String = s.substring_char(0, i).to_owned();
            let longitude: String = s.substring_char(i + 1, n).to_owned();
            Some((latitude, longitude))
        },
    }
}

/// The configuration rendered back as its file format: the top-level
/// keys, then the coordinates table.
pub open spec fn config_toml_seq(c: ConfigV) -> Seq<char> {
    let s1 = "token = \""@ + c.token + "\"\n"@;
    let s2 = if c.language is Some {
        s1 + "language = \""@ + c.language.unwrap() + "\"\n"@
    } else {
        s1
    };
    let s3 = if c.unit is Some {
        s2 + "unit = \""@ + unit_code_seq(c.unit.unwrap()) + "\"\n"@
    } else {
        s2
    };
    s3 + "\n[coordinates]\nlatitude = "@ + c.coordinates.latitude + "\nlongitude = "@
        + c.coordinates.longitude + "\n"@
}

impl Config {
    /// Serialize the configuration back to its file format.  The
    /// coordinates are written as the decimal text they were loaded
    /// from, so a load and a re-serialization lose nothing.
    pub fn to_toml(&self) -> (r: String)
        ensures
            r@ == config_toml_seq(self@),
    {
        let mut out: String = "token = \"".to_owned();
        out.append(self.token.as_str());
        out.append("\"\n");
        match &self.language {
            Some(l) => {
                out.append("language = \"");
                out.append(l.as_str());
                out.append("\"\n");
            },
            None => {},
        }
        match self.unit {
            Some(u) => {
                out.append("unit = \"");
                out.append(u.code());
                out.append("\"\n");
            },
            None => {},
        }
        out.append("\n[coordinates]\nlatitude = ");
        out.append(self.coordinates.latitude.as_str());
        out.append("\nlongitude = ");
        out.append(self.coordinates.longitude.as_str());
        out.append("\n");
        out
    }
}

/// The line the file format writes for the token.
pub open spec fn token_line(tok: Seq<char>) -> Seq<char> {
    "token = \""@ + tok + "\""@
}

/// The line the file format writes for the language.
pub open spec fn language_line(l: Seq<char>) -> Seq<char> {
    "language = \""@ + l + "\""@
}

/// The line the file format writes for the unit system.
pub open spec fn unit_line(u: Unit) -> Seq<char> {
    "unit = \""@ + unit_code_seq(u) + "\""@
}

/// The line the file format writes for the latitude.
pub open spec fn latitude_line(lat: Seq<char>) -> Seq<char> {
    "latitude = "@ + lat
}

/// The line the file format writes for the longitude.
pub open spec fn longitude_line(lon: Seq<char>) -> Seq<char> {
    "longitude = "@ + lon
}

/// The lines of a written configuration file, in order: the token, the
/// optional language and unit, then a blank line, the coordinates table
/// header, and the two coordinates.
pub open spec fn config_lines(c: ConfigV) -> Seq<Seq<char>> {
    seq![token_line(c.token)] + (if c.language is Some {
        seq![language_line(c.language.unwrap())]
    } else {
        Seq::empty()
    }) + (if c.unit is Some {
        seq![unit_line(c.unit.unwrap())]
    } else {
        Seq::empty()
    }) + seq![
        Seq::<char>::empty(),
        "[coordinates]"@,
        latitude_line(c.coordinates.latitude),
        longitude_line(c.coordinates.longitude),
    ]
}

/// The value of a line of the shape `<open>VALUE"`, where `open` is a
/// key, ` = ` and the opening quote; `None` when the line has another
/// shape.
pub open spec fn quoted_value(line: Seq<char>, open: Seq<char>) -> Option<Seq<char>> {
    if open.len() + 1 <= line.len() && line.subrange(0, open.len() as int) == open && line[line.len()
        - 1] == '"' {
        Some(line.subrange(open.len() as int, line.len() - 1))
    } else {
        None
    }
}

/// The value of a line of the shape `<open>VALUE`, where `open` is a key
/// and ` = `; `None` when the line has another shape.
pub open spec fn plain_value(line: Seq<char>, open: Seq<char>) -> Option<Seq<char>> {
    if open.len() <= line.len() && line.subrange(0, open.len() as int) == open {
        Some(line.subrange(open.len() as int, line.len() as int))
    } else {
        None
    }
}

/// Read a configuration from the lines of its file format; `None` when
/// the lines do not have the written shape.
pub open spec fn read_config_lines(lines: Seq<Seq<char>>) -> Option<ConfigV> {
    if lines.len() < 5 {
        None
    } else {
        match quoted_value(lines[0], "token = \""@) {
            None => None,
            Some(tok) => {
                let lang = quoted_value(lines[1], "language = \""@);
                let i1: int = if lang is Some {
                    2
                } else {
                    1
                };
                let unit_txt = quoted_value(lines[i1], "unit = \""@);
                let i2: int = if unit_txt is Some {
                    i1 + 1
                } else {
                    i1
                };
                if lines.len() != i2 + 4 {
                    None
                } else if lines[i2] != Seq::<char>::empty() {
                    None
                } else if lines[i2 + 1] != "[coordinates]"@ {
                    None
                } else {
                    match plain_value(lines[i2 + 2], "latitude = "@) {
                        None => None,
                        Some(lat) => match plain_value(lines[i2 + 3], "longitude = "@) {
                            None => None,
                            Some(lon) => {
                                if unit_txt is Some && unit_of_code(unit_txt.unwrap()) is None {
                                    None
                                } else {
                                    Some(
                                        ConfigV {
                                            coordinates: CoordinatesV {
                                                latitude: lat,
                                                longitude: lon,
                                            },
                                            token: tok,
                                            language: lang,
                                            unit: match unit_txt {
                                                Some(t) => unit_of_code(t),
                                                None => None,
                                            },
                                        },
                                    )
                                }
                            },
                        },
                    }
                }
            },
        }
    }
}

/// Read a configuration from the text of its file format.
pub open spec fn read_config_toml(s: Seq<char>) -> Option<ConfigV> {
    read_config_lines(split_lines(s))
}

/// No unit code holds a newline.
proof fn lemma_unit_code_no_newline(u: Unit)
    ensures
        no_newline(unit_code_seq(u)),
{
    reveal_strlit("auto");
    reveal_strlit("ca");
    reveal_strlit("uk2");
    reveal_strlit("us");
    reveal_strlit("si");
    match u {
        Unit::Auto => assert(no_newline(unit_code_seq(u))),
        Unit::Ca => assert(no_newline(unit_code_seq(u))),
        Unit::Uk2 => assert(no_newline(unit_code_seq(u))),
        Unit::Us => assert(no_newline(unit_code_seq(u))),
        Unit::Si => assert(no_newline(unit_code_seq(u))),
    }
}

/// The closing part of the written file, from the blank line on.
spec fn tail_text(lat: Seq<char>, lon: Seq<char>) -> Seq<char> {
    "\n[coordinates]\nlatitude = "@ + lat + "\nlongitude = "@ + lon + "\n"@
}

/// Splitting the closing part yields the blank line, the table header
/// and the two coordinate lines.
proof fn lemma_split_tail(lat: Seq<char>, lon: Seq<char>)
    requires
        no_newline(lat),
        no_newline(lon),
    ensures
        split_lines(tail_text(lat, lon)) == seq![
            Seq::<char>::empty(),
            "[coordinates]"@,
            latitude_line(lat),
            longitude_line(lon),
        ],
{
    reveal_strlit("\n[coordinates]\nlatitude = ");
    reveal_strlit("\nlongitude = ");
    reveal_strlit("\n");
    reveal_strlit("[coordinates]");
    reveal_strlit("latitude = ");
    reveal_strlit("longitude = ");
    let t3 = longitude_line(lon) + seq!['\n'] + Seq::<char>::empty();
    let t2 = latitude_line(lat) + seq!['\n'] + t3;
    let t1 = "[coordinates]"@ + seq!['\n'] + t2;
    let t0 = Seq::<char>::empty() + seq!['\n'] + t1;
    assert(no_newline(longitude_line(lon)));
    assert(no_newline(latitude_line(lat)));
    assert(no_newline("[coordinates]"@));
    lemma_split_lines_step(longitude_line(lon), Seq::empty());
    lemma_split_lines_step(latitude_line(lat), t3);
    lemma_split_lines_step("[coordinates]"@, t2);
    lemma_split_lines_step(Seq::empty(), t1);
    assert(tail_text(lat, lon) =~= t0);
}

/// Splitting a written configuration file yields exactly its lines.
#[verifier::rlimit(100)]
proof fn lemma_config_toml_lines(c: ConfigV)
    requires
        no_newline(c.token),
        c.language matches Some(l) ==> no_newline(l),
        no_newline(c.coordinates.latitude),
        no_newline(c.coordinates.longitude),
    ensures
        split_lines(config_toml_seq(c)) == config_lines(c),
{
    reveal_strlit("token = \"");
    reveal_strlit("language = \"");
    reveal_strlit("unit = \"");
    reveal_strlit("\"\n");
    reveal_strlit("\"");
    let tok = c.token;
    let lat = c.coordinates.latitude;
    let lon = c.coordinates.longitude;
    let tail = tail_text(lat, lon);
    lemma_split_tail(lat, lon);
    assert(no_newline(token_line(tok)));
    if c.language is None && c.unit is None {
        assert(config_toml_seq(c) =~= token_line(tok) + seq!['\n'] + tail);
        lemma_split_lines_step(token_line(tok), tail);
        assert(split_lines(config_toml_seq(c)) =~= config_lines(c));
    } else if c.language is Some && c.unit is None {
        let l = c.language.unwrap();
        assert(no_newline(language_line(l)));
        let r1 = language_line(l) + seq!['\n'] + tail;
        assert(config_toml_seq(c) =~= token_line(tok) + seq!['\n'] + r1);
        lemma_split_lines_step(token_line(tok), r1);
        lemma_split_lines_step(language_line(l), tail);
        assert(split_lines(config_toml_seq(c)) =~= config_lines(c));
    } else if c.language is None && c.unit is Some {
        let u = c.unit.unwrap();
        lemma_unit_code_no_newline(u);
        assert(no_newline(unit_line(u)));
        let r1 = unit_line(u) + seq!['\n'] + tail;
        assert(config_toml_seq(c) =~= token_line(tok) + seq!['\n'] + r1);
        lemma_split_lines_step(token_line(tok), r1);
        lemma_split_lines_step(unit_line(u), tail);
        assert(split_lines(config_toml_seq(c)) =~= config_lines(c));
    } else {
        let l = c.language.unwrap();
        let u = c.unit.unwrap();
        assert(no_newline(language_line(l)));
        lemma_unit_code_no_newline(u);
        assert(no_newline(unit_line(u)));
        let r2 = unit_line(u) + seq!['\n'] + tail;
        let r1 = language_line(l) + seq!['\n'] + r2;
        assert(config_toml_seq(c) =~= token_line(tok) + seq!['\n'] + r1);
        lemma_split_lines_step(token_line(tok), r1);
        lemma_split_lines_step(language_line(l), r2);
        lemma_split_lines_step(unit_line(u), tail);
        assert(split_lines(config_toml_seq(c)) =~= config_lines(c));
    }
}

/// Reading back the lines of a written configuration yields the same
/// configuration.
proof fn lemma_read_config_lines(c: ConfigV)
    ensures
        read_config_lines(config_lines(c)) == Some(c),
{
    reveal_strlit("\"");
    reveal_strlit("token = \"");
    reveal_strlit("language = \"");
    reveal_strlit("unit = \"");
    reveal_strlit("[coordinates]");
    reveal_strlit("latitude = ");
    reveal_strlit("longitude = ");
    reveal_strlit("auto");
    reveal_strlit("ca");
    reveal_strlit("uk2");
    reveal_strlit("us");
    reveal_strlit("si");
    let tok = c.token;
    let lat = c.coordinates.latitude;
    let lon = c.coordinates.longitude;
    let tl = token_line(tok);
    let latl = latitude_line(lat);
    let lonl = longitude_line(lon);
    assert(quoted_value(tl, "token = \""@) == Some(tok)) by {
        assert(tl.subrange(0, 9) =~= "token = \""@);
        assert(tl[tl.len() - 1] == '"');
        assert(tl.subrange(9, tl.len() - 1) =~= tok);
    }
    assert(plain_value(latl, "latitude = "@) == Some(lat)) by {
        assert(latl.subrange(0, 11) =~= "latitude = "@);
        assert(latl.subrange(11, latl.len() as int) =~= lat);
    }
    assert(plain_value(lonl, "longitude = "@) == Some(lon)) by {
        assert(lonl.subrange(0, 12) =~= "longitude = "@);
        assert(lonl.subrange(12, lonl.len() as int) =~= lon);
    }
    if c.language is Some {
        let l = c.language.unwrap();
        let ll = language_line(l);
        assert(quoted_value(ll, "language = \""@) == Some(l)) by {
            assert(ll.subrange(0, 12) =~= "language = \""@);
            assert(ll[ll.len() - 1] == '"');
            assert(ll.subrange(12, ll.len() - 1) =~= l);
        }
    }
    if c.unit is Some {
        let u = c.unit.unwrap();
        let ul = unit_line(u);
        lemma_unit_code_round_trip(u);
        assert(quoted_value(ul, "unit = \""@) == Some(unit_code_seq(u))) by {
            assert(ul.subrange(0, 8) =~= "unit = \""@);
            assert(ul[ul.len() - 1] == '"');
            assert(ul.subrange(8, ul.len() - 1) =~= unit_code_seq(u));
        }
        assert(quoted_value(ul, "language = \""@) is None) by {
            match u {
                Unit::Auto => assert(ul.subrange(0, 12) != "language = \""@) by {
                    assert(ul[0] == 'u');
                },
                Unit::Ca => assert(ul.len() < 13),
                Unit::Uk2 => assert(ul.len() < 13),
                Unit::Us => assert(ul.len() < 13),
                Unit::Si => assert(ul.len() < 13),
            }
        }
    }
    let lines = config_lines(c);
    if c.language is None && c.unit is None {
        assert(lines =~= seq![tl, Seq::<char>::empty(), "[coordinates]"@, latl, lonl]);
        assert(quoted_value(lines[1], "language = \""@) is None);
        assert(quoted_value(lines[1], "unit = \""@) is None);
        assert(read_config_lines(lines) == Some(c));
    } else if c.language is Some && c.unit is None {
        let ll = language_line(c.language.unwrap());
        assert(lines =~= seq![tl, ll, Seq::<char>::empty(), "[coordinates]"@, latl, lonl]);
        assert(quoted_value(lines[2], "unit = \""@) is None);
        assert(read_config_lines(lines) == Some(c));
    } else if c.language is None && c.unit is Some {
        let ul = unit_line(c.unit.unwrap());
        assert(lines =~= seq![tl, ul, Seq::<char>::empty(), "[coordinates]"@, latl, lonl]);
        assert(read_config_lines(lines) == Some(c));
    } else {
        let ll = language_line(c.language.unwrap());
        let ul = unit_line(c.unit.unwrap());
        assert(lines =~= seq![tl, ll, ul, Seq::<char>::empty(), "[coordinates]"@, latl, lonl]);
        assert(read_config_lines(lines) == Some(c));
    }
}

/// The file format loses nothing: a well-formed configuration written
/// with `to_toml` and read back yields exactly the same values, the
/// coordinates' decimal text included.  The token and language must fit
/// on one line of the format, that is, hold no newline.
pub proof fn lemma_config_toml_round_trip(c: ConfigV)
    requires
        config_wf(c),
        no_newline(c.token),
        c.language matches Some(l) ==> no_newline(l),
    ensures
        read_config_toml(config_toml_seq(c)) == Some(c),
{
    lemma_decimal_no_newline(c.coordinates.latitude);
    lemma_decimal_no_newline(c.coordinates.longitude);
    lemma_config_toml_lines(c);
    lemma_read_config_lines(c);
}

} // verus!
