//! Bootstrap values for the crash reporter's telemetry store.
//!
//! The store itself, its background threads and its uploads live outside;
//! this module computes the values they are initialized with: where the
//! store's data lives, under which application id pings are registered, and
//! which client info they carry.

use vstd::prelude::*;

verus! {

/// The crash reporter's configuration, as far as telemetry initialization
/// reads it: where its data directory lies and which locale, if any, its
/// string bundle reports.
#[derive(Debug)]
pub struct Config {
    /// The data directory path.
    pub data_dir: String,
    /// The locale of the loaded string bundle, if one is loaded.
    pub locale: Option<String>,
}

/// Telemetry initialization options.
#[derive(Debug)]
pub struct InitOptions {
    pub data_dir: String,
    pub locale: Option<String>,
}

/// Everything the telemetry store is initialized with.
#[derive(Debug)]
pub struct GleanSettings {
    /// The store's own directory, below the crash reporter's data directory.
    pub data_dir: String,
    /// The application id pings are registered under.
    pub app_id: String,
    /// The build id, or the display version where no build id is known.
    pub app_build: String,
    /// The displayed application version.
    pub app_display_version: String,
    /// The locale reported with pings, if known.
    pub locale: Option<String>,
}

impl InitOptions {
    /// Reads the initialization options off the configuration.
    pub fn from_config(cfg: &Config) -> (r: InitOptions)
        ensures
            r.data_dir == cfg.data_dir,
            r.locale == cfg.locale,
    {
        InitOptions { data_dir: cfg.data_dir.clone(), locale: clone_opt_string(&cfg.locale) }
    }

    /// Computes the settings the telemetry store is initialized with: its
    /// data lives in the `glean` directory below the configured data
    /// directory, and pings are registered under the application's own name
    /// with a `.crashreporter` suffix.
    pub fn init(self, app_name: &str, build_id: Option<String>, display_version: &str) -> (r:
        GleanSettings)
        ensures
            r.data_dir@ == self.data_dir@ + "/glean"@,
            r.app_id@ == app_name@ + ".crashreporter"@,
            r.app_build@ == (match build_id {
                Option::Some(b) => b@,
                Option::None => display_version@,
            }),
            r.app_display_version@ == display_version@,
            r.locale == self.locale,
    {
        let data_dir = self.data_dir.concat("/glean");
        let app_id = String::from_str(app_name).concat(".crashreporter");
        let app_build = match build_id {
            Option::Some(b) => b,
            Option::None => String::from_str(display_version),
        };
        GleanSettings {
            data_dir,
            app_id,
            app_build,
            app_display_version: String::from_str(display_version),
            locale: self.locale,
        }
    }
}

/// The ping uploader handed to the telemetry store.  It carries no state of
/// its own; the requests it sends are built and carried out on the host
/// side.
#[derive(Debug)]
pub struct Uploader {}

impl Uploader {
    /// A fresh uploader.
    pub fn new() -> (r: Uploader) {
        Uploader {  }
    }
}

/// A field-for-field copy of an optional string.
fn clone_opt_string(o: &Option<String>) -> (r: Option<String>)
    ensures
        r == *o,
{
    match o {
        Option::Some(s) => Option::Some(s.clone()),
        Option::None => Option::None,
    }
}

} // verus!
