//! A forecast, and the emoji and the status line that present it.

use crate::emoji::{EmojiTables, LookupMiss};
use crate::icon::{lemma_night_variant_shares_code, strip_night_mark, without_night_mark};
use crate::models::temp_diff::TempDiff;
use crate::number::{decimal_string, explicit_sign_decimal, signed_decimal};
use crate::text::{
    join, join_suffixed, joined, lemma_non_empty_push, non_empty, suffixed, with_text,
};
use vstd::prelude::*;
use vstd::string::StringExecFns;

verus! {

/// The forecast of one place, as read from one page.
#[derive(Debug, PartialEq, Eq)]
pub struct Forecast {
    /// The name of the place.
    pub place: String,
    /// When the forecast was issued.
    pub date_time: String,
    /// The special warnings in force, the gravest tier; `None` where there is
    /// none.
    pub special_warnings: Option<Vec<String>>,
    /// The warnings in force; `None` where there is none.
    pub warnings: Option<Vec<String>>,
    /// The advisories in force, the lightest tier; `None` where there is
    /// none.
    pub alerts: Option<Vec<String>>,
    /// The weather in a word or two.
    pub weather: String,
    /// The code of the weather icon; the icon of a night carries the mark
    /// `_n`.
    pub weather_icon_name: String,
    /// The highest temperature of the day, in degrees.
    pub high_temp: i16,
    /// Its change against the day before.
    pub high_temp_diff: TempDiff,
    /// The lowest temperature of the day, in degrees.
    pub low_temp: i16,
    /// Its change against the day before.
    pub low_temp_diff: TempDiff,
}

/// What a [`Forecast`] holds, as mathematical values.
pub struct ForecastView {
    pub place: Seq<char>,
    pub date_time: Seq<char>,
    pub special_warnings: Option<Seq<Seq<char>>>,
    pub warnings: Option<Seq<Seq<char>>>,
    pub alerts: Option<Seq<Seq<char>>>,
    pub weather: Seq<char>,
    pub weather_icon_name: Seq<char>,
    pub high_temp: int,
    pub high_temp_diff: int,
    pub low_temp: int,
    pub low_temp_diff: int,
}

impl View for Forecast {
    type V = ForecastView;

    open spec fn view(&self) -> ForecastView {
        ForecastView {
            place: self.place@,
            date_time: self.date_time@,
            special_warnings: self.special_warnings.deep_view(),
            warnings: self.warnings.deep_view(),
            alerts: self.alerts.deep_view(),
            weather: self.weather@,
            weather_icon_name: self.weather_icon_name@,
            high_temp: self.high_temp as int,
            high_temp_diff: self.high_temp_diff@,
            low_temp: self.low_temp as int,
            low_temp_diff: self.low_temp_diff@,
        }
    }
}

/// The first entry of a tier; `None` where the tier is absent or empty.
pub open spec fn first_entry(tier: Option<Seq<Seq<char>>>) -> Option<Seq<char>> {
    match tier {
        Some(entries) => if entries.len() > 0 {
            Some(entries[0])
        } else {
            None
        },
        None => None,
    }
}

impl ForecastView {
    /// Whether every tier that is present holds an entry: a tier without
    /// entries is absent, never empty.
    pub open spec fn well_formed(self) -> bool {
        &&& self.special_warnings matches Some(entries) ==> entries.len() > 0
        &&& self.warnings matches Some(entries) ==> entries.len() > 0
        &&& self.alerts matches Some(entries) ==> entries.len() > 0
    }

    /// Whether no tier is present.
    pub open spec fn calm(self) -> bool {
        self.special_warnings is None && self.warnings is None && self.alerts is None
    }

    /// The name of the alert that stands for the forecast: the first entry of
    /// the first tier that is present, special warnings before warnings
    /// before advisories; `None` where no tier is present, or the first one
    /// present is empty.
    pub open spec fn alert_text(self) -> Option<Seq<char>> {
        if self.special_warnings is Some {
            first_entry(self.special_warnings)
        } else if self.warnings is Some {
            first_entry(self.warnings)
        } else {
            first_entry(self.alerts)
        }
    }

    /// The emoji of the weather icon, day or night, in the table `weather`.
    pub open spec fn weather_emoji(self, weather: Map<Seq<char>, Seq<char>>) -> Result<
        Seq<char>,
        LookupMiss,
    > {
        found(weather, without_night_mark(self.weather_icon_name))
    }

    /// The emoji of the forecast: that of its alert where it has one, that of
    /// its weather icon where it has none.
    pub open spec fn emoji(
        self,
        alert: Map<Seq<char>, Seq<char>>,
        weather: Map<Seq<char>, Seq<char>>,
    ) -> Result<Seq<char>, LookupMiss> {
        match self.alert_text() {
            Some(name) => found(alert, name),
            None => self.weather_emoji(weather),
        }
    }

    /// The advisories of all tiers in one text: each entry with the suffix of
    /// its tier, the entries of a tier and then the tiers that have any
    /// joined by commas, the gravest tier first. `None` where no tier is
    /// present.
    pub open spec fn advisory_text(self) -> Option<Seq<char>> {
        if self.calm() {
            None
        } else {
            Some(
                joined(
                    non_empty(
                        seq![
                            tier_text(self.special_warnings, special_warning_suffix()),
                            tier_text(self.warnings, warning_suffix()),
                            tier_text(self.alerts, alert_suffix()),
                        ],
                    ),
                    comma(),
                ),
            )
        }
    }

    /// The weather, both temperatures with their changes, and the time of
    /// issue.
    pub open spec fn weather_text(self) -> Seq<char> {
        self.weather + " 最高: "@ + signed_decimal(self.high_temp) + "℃["@ + explicit_sign_decimal(
            self.high_temp_diff,
        ) + "] 最低: "@ + signed_decimal(self.low_temp) + "℃["@ + explicit_sign_decimal(
            self.low_temp_diff,
        ) + "] 発表: "@ + self.date_time
    }

    /// The status line: the place, then the advisories and the emoji of the
    /// weather icon where any tier is present, then the weather. The emoji in
    /// the line is that of the weather icon even while an alert is in force.
    pub open spec fn text(self, weather: Map<Seq<char>, Seq<char>>) -> Result<
        Seq<char>,
        LookupMiss,
    > {
        match self.advisory_text() {
            Some(advisories) => match self.weather_emoji(weather) {
                Ok(emoji) => Ok(
                    self.place + ": "@ + advisories + " "@ + emoji + ": "@ + self.weather_text(),
                ),
                Err(miss) => Err(miss),
            },
            None => Ok(self.place + ": "@ + self.weather_text()),
        }
    }
}

/// The emoji of `key` in `table`; the error where the table holds none.
pub open spec fn found(table: Map<Seq<char>, Seq<char>>, key: Seq<char>) -> Result<
    Seq<char>,
    LookupMiss,
> {
    if table.contains_key(key) {
        Ok(table[key])
    } else {
        Err(LookupMiss)
    }
}

/// What follows the name of a special warning.
pub open spec fn special_warning_suffix() -> Seq<char> {
    "特別警報"@
}

/// What follows the name of a warning.
pub open spec fn warning_suffix() -> Seq<char> {
    "警報"@
}

/// What follows the name of an advisory.
pub open spec fn alert_suffix() -> Seq<char> {
    "注意報"@
}

/// What separates two advisories.
pub open spec fn comma() -> Seq<char> {
    ","@
}

/// The entries of a tier in one text, each followed by `suffix`, joined by
/// commas; empty where the tier is absent.
pub open spec fn tier_text(tier: Option<Seq<Seq<char>>>, suffix: Seq<char>) -> Seq<char> {
    match tier {
        Some(entries) => joined(suffixed(entries, suffix), comma()),
        None => Seq::empty(),
    }
}

/// The view of a text or of the error in its place.
pub open spec fn outcome(text: Result<String, LookupMiss>) -> Result<Seq<char>, LookupMiss> {
    match text {
        Ok(t) => Ok(t@),
        Err(miss) => Err(miss),
    }
}

/// Adds the text of `tier` to `texts`, unless the tier is absent or its text
/// is empty.
fn add_tier(texts: &mut Vec<String>, tier: &Option<Vec<String>>, suffix: &str)
    ensures
        final(texts).deep_view() == with_text(
            old(texts).deep_view(),
            tier_text(tier.deep_view(), suffix@),
        ),
{
    let ghost before = texts.deep_view();
    match tier {
        Some(entries) => {
            let text = join_suffixed(entries, suffix, ",");
            if !text.as_str().is_empty() {
                texts.push(text);
                proof {
                    assert(texts.deep_view() =~= before.push(text@));
                }
            }
        },
        None => {},
    }
}

impl Forecast {
    /// The emoji of the forecast: that of the first entry of the first tier
    /// that is present, looked up in the table of alerts; that of the weather
    /// icon where no tier is present, or the first one present is empty. The
    /// error where the table asked holds no emoji for the key.
    pub fn build_emoji(&self, tables: &EmojiTables) -> (emoji: Result<String, LookupMiss>)
        ensures
            outcome(emoji) == self@.emoji(tables.alert@, tables.weather@),
    {
        match self.has_alert_text() {
            Some(x) => self.build_alert_emoji(x, tables),
            None => self.build_weather_emoji(tables),
        }
    }

    /// The name of the alert that stands for the forecast: the first entry of
    /// the first tier that is present, special warnings before warnings
    /// before advisories; `None` where no tier is present, or the first one
    /// present is empty.
    pub fn has_alert_text(&self) -> (name: Option<&String>)
        ensures
            name.deep_view() == self@.alert_text(),
    {
        if let Some(special_warnings) = &self.special_warnings {
            return first(special_warnings);
        }
        if let Some(warnings) = &self.warnings {
            return first(warnings);
        }
        if let Some(alerts) = &self.alerts {
            return first(alerts);
        }
        None
    }

    /// The emoji of the alert `alert_text`.
    pub fn build_alert_emoji(&self, alert_text: &String, tables: &EmojiTables) -> (emoji: Result<
        String,
        LookupMiss,
    >)
        ensures
            outcome(emoji) == found(tables.alert@, alert_text@),
    {
        tables.alert.lookup(alert_text.as_str())
    }

    /// The emoji of the weather icon; the icon of a night has the emoji of
    /// the day.
    pub fn build_weather_emoji(&self, tables: &EmojiTables) -> (emoji: Result<String, LookupMiss>)
        ensures
            outcome(emoji) == self@.weather_emoji(tables.weather@),
    {
        let weather_icon_num = strip_night_mark(self.weather_icon_name.as_str());
        tables.weather.lookup(weather_icon_num.as_str())
    }

    /// The status line of the forecast. The error where advisories are in
    /// force and the table of weather icons holds no emoji for the icon.
    pub fn build_text(&self, tables: &EmojiTables) -> (text: Result<String, LookupMiss>)
        ensures
            outcome(text) == self@.text(tables.weather@),
    {
        let advisory_text: Option<String> = if self.special_warnings.is_some()
            || self.warnings.is_some() || self.alerts.is_some() {
            let mut texts: Vec<String> = Vec::new();
            add_tier(&mut texts, &self.special_warnings, "特別警報");
            add_tier(&mut texts, &self.warnings, "警報");
            add_tier(&mut texts, &self.alerts, "注意報");
            proof {
                let special = tier_text(self@.special_warnings, special_warning_suffix());
                let warnings = tier_text(self@.warnings, warning_suffix());
                let alerts = tier_text(self@.alerts, alert_suffix());
                let none = Seq::<Seq<char>>::empty();
                reveal(Seq::filter);
                assert(non_empty(none) =~= none);
                lemma_non_empty_push(none, special);
                lemma_non_empty_push(none.push(special), warnings);
                lemma_non_empty_push(none.push(special).push(warnings), alerts);
                assert(none.push(special).push(warnings).push(alerts) =~= seq![
                    special,
                    warnings,
                    alerts,
                ]);
                assert(texts.deep_view() == non_empty(seq![special, warnings, alerts]));
            }
            Some(join(&texts, ","))
        } else {
            None
        };
        let mut weather_text = self.weather.clone();
        weather_text.append(" 最高: ");
        weather_text.append(decimal_string(self.high_temp).as_str());
        weather_text.append("℃[");
        weather_text.append(self.high_temp_diff.to_string().as_str());
        weather_text.append("] 最低: ");
        weather_text.append(decimal_string(self.low_temp).as_str());
        weather_text.append("℃[");
        weather_text.append(self.low_temp_diff.to_string().as_str());
        weather_text.append("] 発表: ");
        weather_text.append(self.date_time.as_str());

        let mut text = self.place.clone();
        text.append(": ");
        match advisory_text {
            Some(advisories) => {
                let emoji = self.build_weather_emoji(tables)?;
                text.append(advisories.as_str());
                text.append(" ");
                text.append(emoji.as_str());
                text.append(": ");
            },
            None => {},
        }
        text.append(weather_text.as_str());
        Ok(text)
    }
}

/// The first of `entries`, if there is one.
fn first(entries: &Vec<String>) -> (entry: Option<&String>)
    ensures
        entry.deep_view() == first_entry(Some(entries.deep_view())),
{
    if entries.len() > 0 {
        Some(&entries[0])
    } else {
        None
    }
}

/// The emoji of a forecast is that of the first entry of its gravest tier:
/// of the special warnings where there are any; else of the warnings where
/// there are any; else of the advisories where there are any; and that of the
/// weather icon where no tier is present.
pub proof fn lemma_emoji_follows_gravest_tier(
    f: ForecastView,
    alert: Map<Seq<char>, Seq<char>>,
    weather: Map<Seq<char>, Seq<char>>,
)
    requires
        f.well_formed(),
    ensures
        f.special_warnings matches Some(entries) ==> f.emoji(alert, weather) == found(
            alert,
            entries[0],
        ),
        f.special_warnings is None ==> (f.warnings matches Some(entries) ==> f.emoji(
            alert,
            weather,
        ) == found(alert, entries[0])),
        f.special_warnings is None && f.warnings is None ==> (f.alerts matches Some(entries)
            ==> f.emoji(alert, weather) == found(alert, entries[0])),
        f.calm() ==> f.emoji(alert, weather) == found(
            weather,
            without_night_mark(f.weather_icon_name),
        ),
{
}

/// The icon of a night has the emoji of the day: a forecast without
/// advisories keeps its emoji, and any forecast the emoji in its status line,
/// when the night mark is appended to its icon code.
pub proof fn lemma_night_icon_shares_emoji(
    day: ForecastView,
    night: ForecastView,
    alert: Map<Seq<char>, Seq<char>>,
    weather: Map<Seq<char>, Seq<char>>,
)
    requires
        night == (ForecastView {
            weather_icon_name: day.weather_icon_name + seq!['_', 'n'],
            ..day
        }),
    ensures
        night.weather_emoji(weather) == day.weather_emoji(weather),
        night.emoji(alert, weather) == day.emoji(alert, weather),
        night.text(weather) == day.text(weather),
{
    lemma_night_variant_shares_code(day.weather_icon_name);
}

/// A forecast is presented without error where the tables hold the keys that
/// it asks for: the name of its alert, if it has one, and the code of its
/// weather icon.
pub proof fn lemma_presented_where_tables_hold_the_keys(
    f: ForecastView,
    alert: Map<Seq<char>, Seq<char>>,
    weather: Map<Seq<char>, Seq<char>>,
)
    requires
        f.alert_text() matches Some(name) ==> alert.contains_key(name),
        weather.contains_key(without_night_mark(f.weather_icon_name)),
    ensures
        f.emoji(alert, weather) is Ok,
        f.text(weather) is Ok,
{
}

/// Without advisories the status line is the place and the weather, and no
/// table is asked.
pub proof fn lemma_calm_text_needs_no_table(f: ForecastView, weather: Map<Seq<char>, Seq<char>>)
    requires
        f.calm(),
    ensures
        f.text(weather) == Ok::<Seq<char>, LookupMiss>(f.place + ": "@ + f.weather_text()),
{
}

} // verus!
