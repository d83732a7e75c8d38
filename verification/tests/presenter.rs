use rusty_slack_weather_status::emoji::{EmojiTable, EmojiTables, LookupMiss};
use rusty_slack_weather_status::models::{Forecast, TempDiff};

fn tables() -> EmojiTables {
    let mut alert = EmojiTable::new();
    alert.insert("大雨", ":bucket:");
    alert.insert("洪水", ":ocean:");
    alert.insert("暴風", ":cyclone:");
    alert.insert("雷", ":zap:");
    let mut weather = EmojiTable::new();
    weather.insert("01", ":sunny:");
    weather.insert("02", ":mostly_sunny:");
    EmojiTables { alert, weather }
}

fn names(entries: &[&str]) -> Option<Vec<String>> {
    Some(entries.iter().map(|entry| entry.to_string()).collect())
}

fn forecast(
    special_warnings: Option<Vec<String>>,
    warnings: Option<Vec<String>>,
    alerts: Option<Vec<String>>,
) -> Forecast {
    Forecast {
        place: "場所".to_string(),
        date_time: "日時".to_string(),
        special_warnings,
        warnings,
        alerts,
        weather: "晴".to_string(),
        weather_icon_name: "01".to_string(),
        high_temp: 10,
        high_temp_diff: TempDiff::new("3"),
        low_temp: 0,
        low_temp_diff: TempDiff::new("-5"),
    }
}

#[test]
fn forecast_no_alerts() {
    let forecast = Forecast {
        place: "場所".to_string(),
        date_time: "日時".to_string(),
        special_warnings: None,
        warnings: None,
        alerts: None,
        weather: "晴".to_string(),
        weather_icon_name: "01".to_string(),
        high_temp: 10,
        high_temp_diff: TempDiff::new("3"),
        low_temp: 0,
        low_temp_diff: TempDiff::new("-5"),
    };

    assert_eq!(forecast.build_emoji(&tables()).unwrap(), ":sunny:");
    assert_eq!(
        forecast.build_text(&tables()).unwrap(),
        "場所: 晴 最高: 10℃[+3] 最低: 0℃[-5] 発表: 日時"
    );
}

#[test]
fn forecast_special_warnings() {
    let forecast = Forecast {
        place: "場所".to_string(),
        date_time: "日時".to_string(),
        special_warnings: Some(vec!["大雨".to_string()]),
        warnings: Some(vec!["洪水".to_string()]),
        alerts: Some(vec!["強風".to_string(), "雷".to_string()]),
        weather: "晴".to_string(),
        weather_icon_name: "01".to_string(),
        high_temp: 10,
        high_temp_diff: TempDiff::new("3"),
        low_temp: 0,
        low_temp_diff: TempDiff::new("-5"),
    };

    assert_eq!(forecast.build_emoji(&tables()).unwrap(), ":bucket:");
    assert_eq!(
        forecast.build_text(&tables()).unwrap(),
        "場所: 大雨特別警報,洪水警報,強風注意報,雷注意報 :sunny:: 晴 最高: 10℃[+3] 最低: 0℃[-5] 発表: 日時"
    );
}

#[test]
fn forecast_warnings() {
    let forecast = Forecast {
        place: "場所".to_string(),
        date_time: "日時".to_string(),
        special_warnings: None,
        warnings: Some(vec!["大雨".to_string()]),
        alerts: Some(vec!["洪水".to_string(), "雷".to_string()]),
        weather: "晴".to_string(),
        weather_icon_name: "01".to_string(),
        high_temp: 10,
        high_temp_diff: TempDiff::new("3"),
        low_temp: 0,
        low_temp_diff: TempDiff::new("-5"),
    };

    assert_eq!(forecast.build_emoji(&tables()).unwrap(), ":bucket:");

    let forecast = Forecast {
        place: "場所".to_string(),
        date_time: "日時".to_string(),
        special_warnings: None,
        warnings: Some(vec!["大雨".to_string()]),
        alerts: None,
        weather: "晴".to_string(),
        weather_icon_name: "01".to_string(),
        high_temp: 10,
        high_temp_diff: TempDiff::new("3"),
        low_temp: 0,
        low_temp_diff: TempDiff::new("-5"),
    };

    assert_eq!(
        forecast.build_text(&tables()).unwrap(),
        "場所: 大雨警報 :sunny:: 晴 最高: 10℃[+3] 最低: 0℃[-5] 発表: 日時"
    );
}

#[test]
fn forecast_alerts() {
    let forecast = Forecast {
        place: "場所".to_string(),
        date_time: "日時".to_string(),
        special_warnings: None,
        warnings: None,
        alerts: Some(vec!["洪水".to_string(), "雷".to_string()]),
        weather: "晴".to_string(),
        weather_icon_name: "01".to_string(),
        high_temp: 10,
        high_temp_diff: TempDiff::new("3"),
        low_temp: 0,
        low_temp_diff: TempDiff::new("-5"),
    };

    assert_eq!(forecast.build_emoji(&tables()).unwrap(), ":ocean:");

    let forecast = Forecast {
        place: "場所".to_string(),
        date_time: "日時".to_string(),
        special_warnings: None,
        warnings: Some(vec!["大雨".to_string()]),
        alerts: Some(vec!["洪水".to_string(), "雷".to_string()]),
        weather: "晴".to_string(),
        weather_icon_name: "01".to_string(),
        high_temp: 10,
        high_temp_diff: TempDiff::new("3"),
        low_temp: 0,
        low_temp_diff: TempDiff::new("-5"),
    };

    assert_eq!(
        forecast.build_text(&tables()).unwrap(),
        "場所: 大雨警報,洪水注意報,雷注意報 :sunny:: 晴 最高: 10℃[+3] 最低: 0℃[-5] 発表: 日時"
    );
}

#[test]
fn emoji_follows_the_gravest_tier_present() {
    let tables = tables();
    let tiers = [None, names(&["大雨"])];
    for special in &tiers {
        for warning in [None, names(&["洪水"])] {
            for alert in [None, names(&["暴風", "雷"])] {
                let f = forecast(special.clone(), warning.clone(), alert.clone());
                let expected = if special.is_some() {
                    ":bucket:"
                } else if warning.is_some() {
                    ":ocean:"
                } else if alert.is_some() {
                    ":cyclone:"
                } else {
                    ":sunny:"
                };
                assert_eq!(f.build_emoji(&tables), Ok(expected.to_string()));
            }
        }
    }
}

#[test]
fn has_alert_text_is_the_first_entry_of_the_first_tier() {
    let f = forecast(None, names(&["洪水", "大雨"]), names(&["雷"]));
    assert_eq!(f.has_alert_text(), Some(&"洪水".to_string()));
    let f = forecast(None, None, names(&["雷", "暴風"]));
    assert_eq!(f.has_alert_text(), Some(&"雷".to_string()));
    let f = forecast(None, None, None);
    assert_eq!(f.has_alert_text(), None);
}

#[test]
fn a_tier_without_entries_names_no_alert() {
    let f = forecast(Some(Vec::new()), names(&["洪水"]), None);
    assert_eq!(f.has_alert_text(), None);
    assert_eq!(f.build_emoji(&tables()), Ok(":sunny:".to_string()));
}

#[test]
fn night_icon_shares_the_emoji_of_the_day() {
    let tables = tables();
    let mut f = forecast(None, None, None);
    assert_eq!(f.build_emoji(&tables), Ok(":sunny:".to_string()));
    f.weather_icon_name = "01_n".to_string();
    assert_eq!(f.build_emoji(&tables), Ok(":sunny:".to_string()));
    assert_eq!(f.build_weather_emoji(&tables), Ok(":sunny:".to_string()));
    f.weather_icon_name = "02_n".to_string();
    assert_eq!(f.build_emoji(&tables), Ok(":mostly_sunny:".to_string()));
}

#[test]
fn text_shows_the_weather_emoji_even_under_an_alert() {
    let mut f = forecast(None, names(&["大雨"]), None);
    f.weather_icon_name = "02_n".to_string();
    assert_eq!(f.build_emoji(&tables()), Ok(":bucket:".to_string()));
    assert_eq!(
        f.build_text(&tables()),
        Ok("場所: 大雨警報 :mostly_sunny:: 晴 最高: 10℃[+3] 最低: 0℃[-5] 発表: 日時".to_string())
    );
}

#[test]
fn unknown_alert_name_is_a_lookup_miss() {
    let f = forecast(names(&["噴火"]), None, None);
    assert_eq!(f.build_emoji(&tables()), Err(LookupMiss));
    assert_eq!(f.build_alert_emoji(&"噴火".to_string(), &tables()), Err(LookupMiss));
    assert_eq!(
        f.build_alert_emoji(&"雷".to_string(), &tables()),
        Ok(":zap:".to_string())
    );
}

#[test]
fn unknown_icon_code_is_a_lookup_miss() {
    let mut f = forecast(None, None, None);
    f.weather_icon_name = "99".to_string();
    assert_eq!(f.build_emoji(&tables()), Err(LookupMiss));
    assert_eq!(f.build_weather_emoji(&tables()), Err(LookupMiss));
    // Without advisories the status line needs no emoji.
    assert_eq!(
        f.build_text(&tables()),
        Ok("場所: 晴 最高: 10℃[+3] 最低: 0℃[-5] 発表: 日時".to_string())
    );
    f.alerts = names(&["雷"]);
    assert_eq!(f.build_text(&tables()), Err(LookupMiss));
}

#[test]
fn text_writes_negative_temperatures_and_no_change() {
    let mut f = forecast(None, None, None);
    f.high_temp = -3;
    f.high_temp_diff = TempDiff::new("0");
    f.low_temp = -12;
    f.low_temp_diff = TempDiff::new("+7");
    assert_eq!(
        f.build_text(&tables()),
        Ok("場所: 晴 最高: -3℃[+0] 最低: -12℃[+7] 発表: 日時".to_string())
    );
}

#[test]
fn text_leaves_out_a_tier_without_entries() {
    let f = forecast(Some(Vec::new()), names(&["大雨"]), Some(Vec::new()));
    assert_eq!(
        f.build_text(&tables()),
        Ok("場所: 大雨警報 :sunny:: 晴 最高: 10℃[+3] 最低: 0℃[-5] 発表: 日時".to_string())
    );
    let f = forecast(Some(Vec::new()), None, None);
    assert_eq!(
        f.build_text(&tables()),
        Ok("場所:  :sunny:: 晴 最高: 10℃[+3] 最低: 0℃[-5] 発表: 日時".to_string())
    );
}

#[test]
fn temp_diff_writes_its_sign() {
    assert_eq!(TempDiff::new("0").to_string(), "+0");
    assert_eq!(TempDiff::new("-5").to_string(), "-5");
    assert_eq!(TempDiff::new("3").to_string(), "+3");
    assert_eq!(TempDiff::from_degrees(-32768).to_string(), "-32768");
    assert_eq!(TempDiff::from_degrees(32767).to_string(), "+32767");
    assert_eq!(TempDiff::new("-5").degrees(), -5);
}

#[test]
fn temp_diff_parse_reads_numbers_only() {
    assert_eq!(TempDiff::parse("3"), Some(TempDiff::from_degrees(3)));
    assert_eq!(TempDiff::parse("-5"), Some(TempDiff::from_degrees(-5)));
    assert_eq!(TempDiff::parse("[+3]"), None);
    assert_eq!(TempDiff::parse(""), None);
    assert_eq!(TempDiff::parse("40000"), None);
}
