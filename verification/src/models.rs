//! The data of a forecast and the page it is read from.

pub mod forecast;
pub mod temp_diff;
pub mod tenki_jp_forecast;

pub use forecast::Forecast;
pub use temp_diff::TempDiff;
pub use tenki_jp_forecast::TenkiJpForecast;
