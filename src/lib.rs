//! Typed configuration and bootstrap sequencing for an embedded API-documentation
//! renderer.
//!
//! The configuration model reads a loosely-typed payload (see [`value::Value`]),
//! fills in defaults and reports the first field of the wrong kind; it writes the
//! same model back to the wire form. The bootstrap controller decides, step by
//! step, how the renderer's script is loaded once and how its completion
//! callback settles a single outcome.

pub mod bootstrap;
pub mod config;
pub mod fields;
pub mod numeral;
pub mod options;
pub mod theme;
pub mod value;

pub use bootstrap::{
    asset_url, Action, Bootstrap, BootstrapError, Event, LoadState, Phase, ScriptRegistry,
    ScriptRequest,
};
pub use config::Configuration;
pub use fields::{ConfigError, Expected};
pub use numeral::{numeral_of, parse_numeral};
pub use options::{
    AuthBtnOptions, DependenciesVersions, RedocOptions, RedocTryItOutOptions, TryBtnOptions,
};
pub use theme::{
    Arrow, Breakpoints, Code, Colors, GroupItems, Headings, Level1Items, Links, Logo, Menu,
    RightPanel, Spacing, ThemeOptions, Typography,
};
pub use value::Value;
