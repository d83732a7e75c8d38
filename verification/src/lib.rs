//! Weather forecast extraction and presentation.
//!
//! The crate reads the forecast that a page of tenki.jp shows into a
//! [`models::Forecast`] and derives from it the emoji and the status line that
//! describe the weather. Every function is verified against the contract
//! stated in its signature; what the HTML and the TOML parser return is
//! named, not defined, in [`html`] and [`emoji`].

pub mod emoji;
pub mod html;
pub mod icon;
pub mod models;
pub mod number;
pub mod slack;
pub mod text;

pub use html::{get_attr, get_text, get_texts};
pub use icon::get_stem;
pub use models::forecast::Forecast;
pub use models::tenki_jp_forecast::parse_forecast;
