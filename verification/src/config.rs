//! Connection settings and the credential derived from them.

use vstd::prelude::*;
use vstd::string::*;

verus! {

/// Where the media server lives and how to authenticate against it.
#[derive(Debug)]
pub struct Config {
    pub server: String,
    pub token: String,
    pub folder: String,
}

/// Mathematical value of a [`Config`].
pub struct ConfigView {
    pub server: Seq<char>,
    pub token: Seq<char>,
    pub folder: Seq<char>,
}

impl View for Config {
    type V = ConfigView;

    open spec fn view(&self) -> ConfigView {
        ConfigView { server: self.server@, token: self.token@, folder: self.folder@ }
    }
}

/// The authorization credential for an API token: the token between
/// `MediaBrowser Token="` and a closing quote.
pub open spec fn auth_text(token: Seq<char>) -> Seq<char> {
    "MediaBrowser Token=\""@ + token + "\""@
}

impl Clone for Config {
    fn clone(&self) -> (copy: Config)
        ensures
            copy@ == self@,
    {
        Config {
            server: self.server.clone(),
            token: self.token.clone(),
            folder: self.folder.clone(),
        }
    }
}

impl Default for Config {
    fn default() -> (config: Config)
        ensures
            config@.server == Seq::<char>::empty(),
            config@.token == Seq::<char>::empty(),
            config@.folder == Seq::<char>::empty(),
    {
        Config { server: String::new(), token: String::new(), folder: String::new() }
    }
}

impl Config {
    /// The value of the `Authorization` header that carries this
    /// configuration's token.
    pub fn auth(&self) -> (header: String)
        ensures
            header@ == auth_text(self.token@),
    {
        let mut header = String::from_str("MediaBrowser Token=\"");
        header.append(self.token.as_str());
        header.append("\"");
        header
    }

    /// True when either the server address or the token is still missing,
    /// so that no request can be made yet.
    pub fn is_incomplete(&self) -> (missing: bool)
        ensures
            missing == (self.server@.len() == 0 || self.token@.len() == 0),
    {
        self.server.as_str().is_empty() || self.token.as_str().is_empty()
    }
}

} // verus!
