//! The set-once console-URL cell.
//!
//! The peer announces the enterprise console's address through a reserved
//! string preference; the first successful write wins, and every later write
//! is rejected and leaves the stored value untouched.

use vstd::prelude::*;

verus! {

/// The reserved preference name whose `StringPreference` value additionally
/// feeds this cell.
pub open spec fn spec_console_address_pref() -> Seq<char> {
    "enterprise.console.address"@
}

/// The reserved preference name as a string value.
pub fn console_address_pref() -> (r: String)
    ensures
        r@ == spec_console_address_pref(),
{
    String::from_str("enterprise.console.address")
}

/// What one write attempt does to the cell: the value after the attempt and
/// whether the attempt was accepted.
pub open spec fn spec_set_console_url(stored: Option<String>, url: String) -> (Option<String>, bool) {
    match stored {
        Option::None => (Option::Some(url), true),
        Option::Some(_) => (stored, false),
    }
}

/// A cell holding at most one console URL, writable once.
#[derive(Debug)]
pub struct ConsoleUrlCell {
    pub stored: Option<String>,
}

impl ConsoleUrlCell {
    /// An empty cell.
    pub fn new_empty() -> (r: ConsoleUrlCell)
        ensures
            r.stored is None,
    {
        ConsoleUrlCell { stored: Option::None }
    }

    /// Attempts to store `url`.  The first successful call wins; later calls
    /// change nothing and report rejection.
    pub fn set_console_url(&mut self, url: String) -> (accepted: bool)
        ensures
            (final (self).stored, accepted) == spec_set_console_url(old(self).stored, url),
            accepted == (old(self).stored is None),
    {
        match &self.stored {
            Option::None => {
                self.stored = Option::Some(url);
                true
            },
            Option::Some(_) => false,
        }
    }

    /// The stored URL, if one was ever accepted.
    pub fn console_url(&self) -> (r: &Option<String>)
        ensures
            r == &self.stored,
    {
        &self.stored
    }
}

/// First write wins: once a write was accepted, any later write is rejected
/// and leaves the stored value exactly as it was.
pub proof fn lemma_console_url_first_write_wins(first: String, second: String)
    ensures
        spec_set_console_url(Option::None, first) == (Option::Some(first), true),
        spec_set_console_url(spec_set_console_url(Option::None, first).0, second) == (
            Option::Some(first),
            false,
        ),
{
}

} // verus!
