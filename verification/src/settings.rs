//! The configuration that the protocol reads: the provider's address and the
//! account. Loading it is the caller's business.

use vstd::prelude::*;

verus! {

/// Where the provider is reached, and the account that logs in there.
#[derive(Clone, Debug, PartialEq, Eq)]
pub struct Ghin {
    /// The base of every path, without a slash at its end.
    pub url: String,
    pub username: String,
    pub password: String,
}

/// A `Ghin` as specifications see it.
pub struct GhinView {
    pub url: Seq<char>,
    pub username: Seq<char>,
    pub password: Seq<char>,
}

impl View for Ghin {
    type V = GhinView;

    open spec fn view(&self) -> GhinView {
        GhinView {
            url: self.url@,
            username: self.username@,
            password: self.password@,
        }
    }
}

/// What is configured once, when the process starts.
#[derive(Clone, Debug, PartialEq, Eq)]
pub struct Settings {
    pub debug: bool,
    pub ghin: Ghin,
}

/// A `Settings` as specifications see it.
pub struct SettingsView {
    pub debug: bool,
    pub ghin: GhinView,
}

impl View for Settings {
    type V = SettingsView;

    open spec fn view(&self) -> SettingsView {
        SettingsView {
            debug: self.debug,
            ghin: self.ghin@,
        }
    }
}

} // verus!
