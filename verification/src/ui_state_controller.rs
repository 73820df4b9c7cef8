//! Which view the window shows.

use crate::text::same_text;
use vstd::prelude::*;

verus! {

/// One of the views of the window.
#[derive(Debug, Clone, Copy, PartialEq, Eq, Structural)]
pub enum Screen {
    WaitingForWifi,
    Loading,
    Home,
}

/// Remembers the address that the window shows, so that it is not loaded
/// again.
#[derive(Debug, Clone, PartialEq, Eq)]
pub struct UrlState {
    pub current: Option<String>,
}

impl Screen {
    /// The address of the view.
    pub open spec fn address(self) -> Seq<char> {
        match self {
            Screen::WaitingForWifi => "http://localhost:8000/goldie?view=waiting-for-wifi"@,
            Screen::Loading => "http://localhost:8000/goldie?view=loading"@,
            Screen::Home => "http://localhost:8000/goldie?view=home"@,
        }
    }

    /// The address of the view.
    pub fn url(&self) -> (r: &'static str)
        ensures
            r@ == self.address(),
    {
        match self {
            Screen::WaitingForWifi => "http://localhost:8000/goldie?view=waiting-for-wifi",
            Screen::Loading => "http://localhost:8000/goldie?view=loading",
            Screen::Home => "http://localhost:8000/goldie?view=home",
        }
    }
}

impl UrlState {
    /// The window shows `current`.
    pub open spec fn shows(self, url: Seq<char>) -> bool {
        self.current matches Some(current) && current@ == url
    }

    /// The state of a window that was opened at `initial_url`.
    pub fn new(initial_url: &str) -> (r: Self)
        ensures
            r.shows(initial_url@),
    {
        Self { current: Some(initial_url.to_owned()) }
    }

    /// Says whether `url` has to be loaded, which it has unless the window
    /// shows it already, and remembers it as shown.
    pub fn load_url_if_different(&mut self, url: &str) -> (r: bool)
        ensures
            r == !old(self).shows(url@),
            final(self).shows(url@),
    {
        let same = match &self.current {
            Some(current) => same_text(current.as_str(), url),
            None => false,
        };
        if !same {
            self.current = Some(url.to_owned());
        }
        !same
    }
}

} // verus!
