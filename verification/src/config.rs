//! The fixed attributes of the documentation window.

use vstd::prelude::*;

verus! {

/// Label under which the host's registry knows the documentation window.
pub const DOCS_LABEL: &'static str = "docs";

/// Location of the documentation page within the application's packaged assets.
pub const DOCS_URL: &'static str = "README.html";

/// Title shown on the documentation window.
pub const DOCS_TITLE: &'static str = "MiStory Documentation";

/// Initial inner width of the documentation window, in logical units.
pub const DOCS_WIDTH: u32 = 900;

/// Initial inner height of the documentation window, in logical units.
pub const DOCS_HEIGHT: u32 = 750;

/// What the host needs to know to create a window.
#[derive(Clone, Debug, PartialEq, Eq)]
pub struct WindowConfig {
    /// Label that identifies the window in the host's registry.
    pub label: String,
    /// Location of the content, relative to the application's packaged assets.
    pub url: String,
    /// Title of the window.
    pub title: String,
    /// Initial inner width in logical units.
    pub width: u32,
    /// Initial inner height in logical units.
    pub height: u32,
}

/// Mathematical value of a [`WindowConfig`].
pub struct WindowConfigView {
    pub label: Seq<char>,
    pub url: Seq<char>,
    pub title: Seq<char>,
    pub width: nat,
    pub height: nat,
}

impl View for WindowConfig {
    type V = WindowConfigView;

    open spec fn view(&self) -> WindowConfigView {
        WindowConfigView {
            label: self.label@,
            url: self.url@,
            title: self.title@,
            width: self.width as nat,
            height: self.height as nat,
        }
    }
}

/// The label of the documentation window, as a sequence of characters.
pub open spec fn docs_label() -> Seq<char> {
    DOCS_LABEL@
}

/// The documentation window as the host is asked to create it.
pub open spec fn docs_window() -> WindowConfigView {
    WindowConfigView {
        label: DOCS_LABEL@,
        url: DOCS_URL@,
        title: DOCS_TITLE@,
        width: 900,
        height: 750,
    }
}

impl WindowConfig {
    /// The configuration of the documentation window.
    pub fn docs() -> (config: WindowConfig)
        ensures
            config@ == docs_window(),
    {
        WindowConfig {
            label: DOCS_LABEL.to_owned(),
            url: DOCS_URL.to_owned(),
            title: DOCS_TITLE.to_owned(),
            width: DOCS_WIDTH,
            height: DOCS_HEIGHT,
        }
    }
}

} // verus!
