//! What the user interface shows and which command its transport button
//! sends. Drawing is the caller's; the decisions are made here.

use vstd::prelude::*;
use crate::audio::{AudioCommand, AudioState};
use crate::config::{Config, ConfigView};
use crate::jellyfin::{Album, AlbumView};
use crate::machine::AudioCommandView;

verus! {

/// A page of the catalogue browser.
#[derive(Debug, PartialEq)]
pub enum Page {
    Home,
    ArtistList,
    Album(Album),
    Artist(String),
}

/// Mathematical value of a [`Page`].
pub enum PageView {
    Home,
    ArtistList,
    Album(AlbumView),
    Artist(Seq<char>),
}

impl View for Page {
    type V = PageView;

    open spec fn view(&self) -> PageView {
        match self {
            Page::Home => PageView::Home,
            Page::ArtistList => PageView::ArtistList,
            Page::Album(album) => PageView::Album(album@),
            Page::Artist(name) => PageView::Artist(name@),
        }
    }
}

impl Clone for Page {
    fn clone(&self) -> (copy: Page)
        ensures
            copy@ == self@,
    {
        match self {
            Page::Home => Page::Home,
            Page::ArtistList => Page::ArtistList,
            Page::Album(album) => Page::Album(album.clone()),
            Page::Artist(name) => Page::Artist(name.clone()),
        }
    }
}

/// What fills the central panel.
#[derive(Clone, Copy, Debug, PartialEq, Eq, Structural)]
pub enum Panel {
    /// The notice that the catalogue is being fetched.
    Fetching,
    /// The form for the server address and the token.
    Config,
    /// The current page of the browser.
    Page,
}

/// Where the user interface stands.
#[derive(Debug)]
pub struct Navigation {
    pub page: Page,
    pub show_config: bool,
    pub fetching_data: bool,
}

/// Mathematical value of a [`Navigation`].
pub struct NavigationView {
    pub page: PageView,
    pub show_config: bool,
    pub fetching_data: bool,
}

impl View for Navigation {
    type V = NavigationView;

    open spec fn view(&self) -> NavigationView {
        NavigationView {
            page: self.page@,
            show_config: self.show_config,
            fetching_data: self.fetching_data,
        }
    }
}

/// No request can be made with these settings: the server address or the
/// token is missing.
pub open spec fn incomplete(config: ConfigView) -> bool {
    config.server.len() == 0 || config.token.len() == 0
}

impl NavigationView {
    /// The panel to draw: the fetching notice while data is awaited, else
    /// the configuration form when it is called for, else the page.
    pub open spec fn panel(self) -> Panel {
        if self.fetching_data {
            Panel::Fetching
        } else if self.show_config {
            Panel::Config
        } else {
            Panel::Page
        }
    }

    /// Where a frame leads: data that arrived ends the fetching, and
    /// incomplete settings call for the configuration form.
    pub open spec fn update(self, config: ConfigView, data_arrived: bool) -> NavigationView {
        NavigationView {
            page: self.page,
            show_config: self.show_config || incomplete(config),
            fetching_data: self.fetching_data && !data_arrived,
        }
    }
}

impl Navigation {
    /// The interface as it opens: on the home page, nothing pending.
    pub fn new() -> (navigation: Navigation)
        ensures
            navigation@ == (NavigationView {
                page: PageView::Home,
                show_config: false,
                fetching_data: false,
            }),
    {
        Navigation { page: Page::Home, show_config: false, fetching_data: false }
    }

    /// Takes in what happened since the last frame and returns the panel to
    /// draw.
    pub fn update(&mut self, config: &Config, data_arrived: bool) -> (panel: Panel)
        ensures
            final(self)@ == old(self)@.update(config@, data_arrived),
            panel == final(self)@.panel(),
    {
        if data_arrived {
            self.fetching_data = false;
        }
        if config.is_incomplete() {
            self.show_config = true;
        }
        if self.fetching_data {
            Panel::Fetching
        } else if self.show_config {
            Panel::Config
        } else {
            Panel::Page
        }
    }

    /// The user asked for the configuration form.
    pub fn configure(&mut self)
        ensures
            final(self)@ == (NavigationView { show_config: true, ..old(self)@ }),
    {
        self.show_config = true;
    }

    /// The user asked for the catalogue to be fetched anew: the form closes
    /// and the fetching notice shows until the data arrives.
    pub fn refresh_data(&mut self)
        ensures
            final(self)@ == (NavigationView {
                show_config: false,
                fetching_data: true,
                ..old(self)@
            }),
    {
        self.show_config = false;
        self.fetching_data = true;
    }

    /// The user opened `page`.
    pub fn visit(&mut self, page: Page)
        ensures
            final(self)@ == (NavigationView { page: page@, ..old(self)@ }),
    {
        self.page = page;
    }

    /// The home page, once drawn, gives way to the list of artists. Any
    /// other page stays.
    pub fn leave_home(&mut self)
        ensures
            final(self)@ == (NavigationView {
                page: if old(self)@.page is Home {
                    PageView::ArtistList
                } else {
                    old(self)@.page
                },
                ..old(self)@
            }),
    {
        let home = match &self.page {
            Page::Home => true,
            _ => false,
        };
        if home {
            self.page = Page::ArtistList;
        }
    }
}

/// The command of the transport button: it pauses while a track is playing
/// and resumes otherwise.
pub fn transport_command(state: &AudioState) -> (command: AudioCommand)
    ensures
        command@ == if state@ is Playing {
            AudioCommandView::Pause
        } else {
            AudioCommandView::Resume
        },
{
    match state {
        AudioState::Playing(_) => AudioCommand::Pause,
        _ => AudioCommand::Resume,
    }
}

} // verus!
