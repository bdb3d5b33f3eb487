//! The persisted configuration and the window that edits it.

use vstd::prelude::*;

verus! {

/// What the application persists between runs: where the song library
/// lives on disk. The path is kept as plain text.
pub struct Config {
    pub library_directory: String,
}

impl Default for Config {
    /// A fresh configuration: no library directory chosen yet.
    fn default() -> (r: Config)
        ensures
            r.library_directory@ == Seq::<char>::empty(),
    {
        Config { library_directory: String::new() }
    }
}

/// The state of the configuration window: whether it is open.
pub struct ConfigView {
    show_window: bool,
}

impl ConfigView {
    pub closed spec fn spec_show_window(self) -> bool {
        self.show_window
    }

    pub fn new() -> (r: ConfigView)
        ensures
            !r.spec_show_window(),
    {
        ConfigView { show_window: false }
    }

    pub fn open_window(&mut self)
        ensures
            final(self).spec_show_window(),
    {
        self.show_window = true;
    }

    pub fn is_window_open(&self) -> (r: bool)
        ensures
            r == self.spec_show_window(),
    {
        self.show_window
    }

    /// The interface binds the window's open flag to a widget; this puts
    /// the widget's value back.
    pub fn set_window_open(&mut self, open: bool)
        ensures
            final(self).spec_show_window() == open,
    {
        self.show_window = open;
    }
}

} // verus!
