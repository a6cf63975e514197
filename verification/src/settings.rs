//! The browser's settings, their defaults, and the search engines.

use crate::encoding::{percent_encode, percent_encoded};
use crate::text;
use vstd::prelude::*;
use vstd::string::StringExecFns;

verus! {

/// The general settings.
#[derive(Debug, Clone, PartialEq, Eq)]
pub struct GeneralSettings {
    pub homepage: String,
    pub new_tab_page: String,
    pub default_search_engine: String,
    pub restore_tabs_on_startup: bool,
    pub show_bookmarks_bar: bool,
    pub enable_notifications: bool,
    pub language: String,
}

impl Default for GeneralSettings {
    fn default() -> (settings: GeneralSettings)
        ensures
            settings.homepage@ == "about:blank"@,
            settings.new_tab_page@ == "about:newtab"@,
            settings.default_search_engine@ == "duckduckgo"@,
            settings.restore_tabs_on_startup,
            settings.show_bookmarks_bar,
            settings.enable_notifications,
            settings.language@ == "en-US"@,
    {
        GeneralSettings {
            homepage: "about:blank".to_string(),
            new_tab_page: "about:newtab".to_string(),
            default_search_engine: "duckduckgo".to_string(),
            restore_tabs_on_startup: true,
            show_bookmarks_bar: true,
            enable_notifications: true,
            language: "en-US".to_string(),
        }
    }
}

/// The privacy settings.
#[derive(Debug, Clone, Copy, PartialEq, Eq, Structural)]
pub struct PrivacySettings {
    pub block_ads: bool,
    pub block_trackers: bool,
    pub block_third_party_cookies: bool,
    pub enable_fingerprinting_protection: bool,
    pub https_only_mode: bool,
    pub clear_data_on_exit: bool,
    pub send_do_not_track: bool,
    pub enable_private_browsing_by_default: bool,
}

impl PrivacySettings {
    /// The privacy settings before the user changes any: every protection
    /// on, data kept on exit, private browsing not the default.
    pub open spec fn initial() -> PrivacySettings {
        PrivacySettings {
            block_ads: true,
            block_trackers: true,
            block_third_party_cookies: true,
            enable_fingerprinting_protection: true,
            https_only_mode: true,
            clear_data_on_exit: false,
            send_do_not_track: true,
            enable_private_browsing_by_default: false,
        }
    }
}

impl Default for PrivacySettings {
    fn default() -> (settings: PrivacySettings)
        ensures
            settings == PrivacySettings::initial(),
    {
        PrivacySettings {
            block_ads: true,
            block_trackers: true,
            block_third_party_cookies: true,
            enable_fingerprinting_protection: true,
            https_only_mode: true,
            clear_data_on_exit: false,
            send_do_not_track: true,
            enable_private_browsing_by_default: false,
        }
    }
}

/// The download settings.
#[derive(Debug, Clone, PartialEq, Eq)]
pub struct DownloadSettings {
    pub download_directory: String,
    pub ask_where_to_save: bool,
    pub auto_open_downloads: bool,
    pub clear_downloads_on_exit: bool,
}

impl DownloadSettings {
    /// The download settings before the user changes any: downloads go to
    /// `download_directory` without a question and stay closed and listed.
    pub fn with_directory(download_directory: String) -> (settings: DownloadSettings)
        ensures
            settings.download_directory@ == download_directory@,
            !settings.ask_where_to_save,
            !settings.auto_open_downloads,
            !settings.clear_downloads_on_exit,
    {
        DownloadSettings {
            download_directory,
            ask_where_to_save: false,
            auto_open_downloads: false,
            clear_downloads_on_exit: false,
        }
    }
}

/// The kind of proxy that requests go through.
#[derive(Debug, Clone, Copy, PartialEq, Eq, Structural)]
pub enum ProxyType {
    /// Requests go out directly.
    NoProxy,
    Http,
    Https,
    Socks4,
    Socks5,
}

/// The proxy that requests go through.
#[derive(Debug, Clone, PartialEq, Eq)]
pub struct ProxySettings {
    pub proxy_type: ProxyType,
    pub host: Option<String>,
    pub port: Option<u16>,
    pub username: Option<String>,
    pub password: Option<String>,
}

impl Default for ProxySettings {
    /// No proxy.
    fn default() -> (settings: ProxySettings)
        ensures
            settings.proxy_type == ProxyType::NoProxy,
            settings.host is None,
            settings.port is None,
            settings.username is None,
            settings.password is None,
    {
        ProxySettings {
            proxy_type: ProxyType::NoProxy,
            host: None,
            port: None,
            username: None,
            password: None,
        }
    }
}

/// The advanced settings.
#[derive(Debug, Clone, PartialEq, Eq)]
pub struct AdvancedSettings {
    pub enable_javascript: bool,
    pub enable_images: bool,
    pub enable_plugins: bool,
    pub enable_webgl: bool,
    pub enable_webrtc: bool,
    pub user_agent: Option<String>,
    pub proxy_settings: ProxySettings,
    pub developer_mode: bool,
}

impl Default for AdvancedSettings {
    fn default() -> (settings: AdvancedSettings)
        ensures
            settings.enable_javascript,
            settings.enable_images,
            !settings.enable_plugins,
            settings.enable_webgl,
            !settings.enable_webrtc,
            settings.user_agent is None,
            settings.proxy_settings.proxy_type == ProxyType::NoProxy,
            settings.proxy_settings.host is None,
            settings.proxy_settings.port is None,
            settings.proxy_settings.username is None,
            settings.proxy_settings.password is None,
            !settings.developer_mode,
    {
        AdvancedSettings {
            enable_javascript: true,
            enable_images: true,
            enable_plugins: false,
            enable_webgl: true,
            enable_webrtc: false,
            user_agent: None,
            proxy_settings: ProxySettings::default(),
            developer_mode: false,
        }
    }
}

/// One search engine.
#[derive(Debug, PartialEq, Eq)]
pub struct SearchEngine {
    pub name: String,
    /// The address of a search, with `{searchTerms}` where the query goes.
    pub url: String,
    /// The address of the suggestions, with `{searchTerms}` where the query
    /// goes.
    pub suggest_url: Option<String>,
    pub icon: Option<String>,
}

/// The mathematical value of a [`SearchEngine`].
pub struct SearchEngineView {
    pub name: Seq<char>,
    pub url: Seq<char>,
    pub suggest_url: Option<Seq<char>>,
    pub icon: Option<Seq<char>>,
}

/// The text of an optional string.
pub open spec fn option_view(s: Option<String>) -> Option<Seq<char>> {
    match s {
        Some(s) => Some(s@),
        None => None,
    }
}

impl View for SearchEngine {
    type V = SearchEngineView;

    open spec fn view(&self) -> SearchEngineView {
        SearchEngineView {
            name: self.name@,
            url: self.url@,
            suggest_url: option_view(self.suggest_url),
            icon: option_view(self.icon),
        }
    }
}

impl Clone for SearchEngine {
    fn clone(&self) -> (copy: SearchEngine)
        ensures
            copy@ == self@,
    {
        SearchEngine {
            name: self.name.clone(),
            url: self.url.clone(),
            suggest_url: match &self.suggest_url {
                Some(s) => Some(s.clone()),
                None => None,
            },
            icon: match &self.icon {
                Some(s) => Some(s.clone()),
                None => None,
            },
        }
    }
}

/// `template` with `terms` in the place of every `{searchTerms}`, the
/// occurrences taken from the left and without overlap.
pub open spec fn with_search_terms(template: Seq<char>, terms: Seq<char>) -> Seq<char>
    decreases template.len(),
{
    if template.len() == 0 {
        template
    } else if text::starts_with(template, "{searchTerms}"@) && "{searchTerms}"@.len() > 0 {
        terms + with_search_terms(template.skip("{searchTerms}"@.len() as int), terms)
    } else {
        seq![template[0]] + with_search_terms(template.skip(1), terms)
    }
}

/// The address that `template` gives for the query `query`: the template
/// with the percent-encoded query in the place of every `{searchTerms}`.
pub open spec fn search_address(template: Seq<char>, query: Seq<char>) -> Seq<char> {
    with_search_terms(template, percent_encoded(query))
}

/// `template` with `terms` in the place of every `{searchTerms}`.
pub fn fill_search_terms(template: &str, terms: &str) -> (filled: String)
    ensures
        filled@ == with_search_terms(template@, terms@),
{
    let owned = text::chars_of(template);
    let chars = owned.as_slice();
    let n = chars.len();
    let mut filled = String::new();
    let mut i: usize = 0;
    proof {
        reveal_strlit("{searchTerms}");
        assert(chars@.skip(0) =~= chars@);
        assert(filled@ + with_search_terms(chars@, terms@) =~= with_search_terms(chars@, terms@));
    }
    while i < n
        invariant
            n == chars@.len(),
            chars@ == template@,
            i <= n,
            "{searchTerms}"@.len() == 13,
            with_search_terms(chars@, terms@) == filled@ + with_search_terms(
                chars@.skip(i as int),
                terms@,
            ),
        decreases n - i,
    {
        let ghost rest = chars@.skip(i as int);
        let ghost before = filled@;
        if text::matches_at(chars, "{searchTerms}", i) {
            filled.append(terms);
            proof {
                assert(rest.subrange(0, 13) =~= chars@.subrange(i as int, i + 13));
                assert(text::starts_with(rest, "{searchTerms}"@));
                assert(rest.skip(13) =~= chars@.skip(i + 13));
                assert((before + terms@) + with_search_terms(chars@.skip(i + 13), terms@) =~= before
                    + (terms@ + with_search_terms(chars@.skip(i + 13), terms@)));
            }
            i += 13;
        } else {
            filled.push(chars[i]);
            proof {
                if text::starts_with(rest, "{searchTerms}"@) {
                    assert(rest.subrange(0, 13) =~= chars@.subrange(i as int, i + 13));
                }
                assert(rest[0] == chars@[i as int]);
                assert(rest.skip(1) =~= chars@.skip(i + 1));
                assert(before.push(chars@[i as int]) + with_search_terms(
                    chars@.skip(i + 1),
                    terms@,
                ) =~= before + (seq![rest[0]] + with_search_terms(chars@.skip(i + 1), terms@)));
            }
            i += 1;
        }
    }
    proof {
        assert(chars@.skip(n as int) =~= Seq::<char>::empty());
        assert(filled@ + Seq::<char>::empty() =~= filled@);
    }
    filled
}

/// A search engine under its id.
#[derive(Debug, PartialEq, Eq)]
pub struct SearchEngineEntry {
    pub id: String,
    pub engine: SearchEngine,
}

/// The search engines and how searches are made.
#[derive(Debug, PartialEq, Eq)]
pub struct SearchSettings {
    /// The search engines, each under an id of its own, in the order in
    /// which they were added.
    pub search_engines: Vec<SearchEngineEntry>,
    /// The id of the engine that searches go to.
    pub default_engine: String,
    pub enable_search_suggestions: bool,
    pub show_search_in_address_bar: bool,
}

/// Why a change of the search engines was refused.
#[derive(Debug, Clone, Copy, PartialEq, Eq, Structural)]
pub enum SearchEngineError {
    /// The default search engine cannot be removed.
    IsDefault,
    /// There is no search engine with the id.
    NotFound,
}

impl SearchEngineError {
    /// The message of the error.
    pub fn message(self) -> (text: &'static str)
        ensures
            text@ == match self {
                SearchEngineError::IsDefault => "Cannot remove default search engine"@,
                SearchEngineError::NotFound => "Search engine not found"@,
            },
    {
        match self {
            SearchEngineError::IsDefault => "Cannot remove default search engine",
            SearchEngineError::NotFound => "Search engine not found",
        }
    }
}

impl SearchEngine {
    /// The engine with the given name and addresses, without an icon.
    fn builtin(name: &str, url: &str, suggest_url: &str) -> (engine: SearchEngine)
        ensures
            engine@ == SearchSettings::builtin_engine(name@, url@, suggest_url@),
    {
        SearchEngine {
            name: name.to_string(),
            url: url.to_string(),
            suggest_url: Some(suggest_url.to_string()),
            icon: None,
        }
    }
}

impl Default for SearchSettings {
    /// The three built-in engines, with DuckDuckGo as the default.
    fn default() -> (settings: SearchSettings)
        ensures
            settings.well_formed(),
            settings.ids() == seq!["google"@, "duckduckgo"@, "bing"@],
            settings.engines() == SearchSettings::builtin_engines(),
            settings.default_engine@ == "duckduckgo"@,
            settings.enable_search_suggestions,
            settings.show_search_in_address_bar,
    {
        let mut search_engines: Vec<SearchEngineEntry> = Vec::new();
        search_engines.push(
            SearchEngineEntry {
                id: "google".to_string(),
                engine: SearchEngine::builtin(
                    "Google",
                    "https://www.google.com/search?q={searchTerms}",
                    "https://suggestqueries.google.com/complete/search?client=chrome&q={searchTerms}",
                ),
            },
        );
        search_engines.push(
            SearchEngineEntry {
                id: "duckduckgo".to_string(),
                engine: SearchEngine::builtin(
                    "DuckDuckGo",
                    "https://duckduckgo.com/?q={searchTerms}",
                    "https://ac.duckduckgo.com/ac/?q={searchTerms}&type=list",
                ),
            },
        );
        search_engines.push(
            SearchEngineEntry {
                id: "bing".to_string(),
                engine: SearchEngine::builtin(
                    "Bing",
                    "https://www.bing.com/search?q={searchTerms}",
                    "https://www.bing.com/osjson.aspx?query={searchTerms}",
                ),
            },
        );
        let settings = SearchSettings {
            search_engines,
            default_engine: "duckduckgo".to_string(),
            enable_search_suggestions: true,
            show_search_in_address_bar: true,
        };
        proof {
            reveal_strlit("google");
            reveal_strlit("duckduckgo");
            reveal_strlit("bing");
            assert("google"@.len() == 6 && "duckduckgo"@.len() == 10 && "bing"@.len() == 4);
            assert(settings.ids() =~= seq!["google"@, "duckduckgo"@, "bing"@]);
            assert(settings.engines() =~= SearchSettings::builtin_engines());
        }
        settings
    }
}

impl SearchSettings {
    /// A built-in engine: a name, the two addresses, no icon.
    pub open spec fn builtin_engine(
        name: Seq<char>,
        url: Seq<char>,
        suggest_url: Seq<char>,
    ) -> SearchEngineView {
        SearchEngineView { name, url, suggest_url: Some(suggest_url), icon: None }
    }

    /// The built-in engines: Google, DuckDuckGo and Bing.
    pub open spec fn builtin_engines() -> Seq<SearchEngineView> {
        seq![
            Self::builtin_engine(
                "Google"@,
                "https://www.google.com/search?q={searchTerms}"@,
                "https://suggestqueries.google.com/complete/search?client=chrome&q={searchTerms}"@,
            ),
            Self::builtin_engine(
                "DuckDuckGo"@,
                "https://duckduckgo.com/?q={searchTerms}"@,
                "https://ac.duckduckgo.com/ac/?q={searchTerms}&type=list"@,
            ),
            Self::builtin_engine(
                "Bing"@,
                "https://www.bing.com/search?q={searchTerms}"@,
                "https://www.bing.com/osjson.aspx?query={searchTerms}"@,
            ),
        ]
    }

    /// The ids of the engines, in order.
    pub open spec fn ids(self) -> Seq<Seq<char>> {
        self.search_engines@.map_values(|e: SearchEngineEntry| e.id@)
    }

    /// The engines, in order.
    pub open spec fn engines(self) -> Seq<SearchEngineView> {
        self.search_engines@.map_values(|e: SearchEngineEntry| e.engine@)
    }

    /// No id stands for two engines.
    pub open spec fn well_formed(self) -> bool {
        self.ids().no_duplicates()
    }

    /// Whether an engine has the id `id`.
    pub open spec fn has_engine(self, id: Seq<char>) -> bool {
        self.ids().contains(id)
    }

    /// The engine with the id `id`.
    pub open spec fn engine(self, id: Seq<char>) -> SearchEngineView {
        self.engines()[self.ids().index_of(id)]
    }

    /// The position of the engine with the id `id`, if there is one.
    fn find(&self, id: &str) -> (found: Option<usize>)
        requires
            self.well_formed(),
        ensures
            match found {
                Some(i) => i < self.ids().len() && self.has_engine(id@) && self.ids().index_of(id@)
                    == i,
                None => !self.has_engine(id@),
            },
    {
        let chars = text::chars_of(id);
        let mut i: usize = 0;
        while i < self.search_engines.len()
            invariant
                self.well_formed(),
                chars@ == id@,
                i <= self.search_engines@.len(),
                forall|j: int| 0 <= j < i ==> (#[trigger] self.ids()[j]) != id@,
            decreases self.search_engines@.len() - i,
        {
            if text::equals_str(chars.as_slice(), self.search_engines[i].id.as_str()) {
                proof {
                    let ids = self.ids();
                    assert(ids[i as int] == id@);
                    assert(ids.contains(id@));
                    let k = ids.index_of(id@);
                    assert(0 <= k < ids.len() && ids[k] == id@);
                    assert(k == i);
                }
                return Some(i);
            }
            i += 1;
        }
        None
    }

    /// Puts `engine` under the id `id`, in the place of the engine that had
    /// the id, or behind the others where none had it.
    pub fn add_search_engine(&mut self, id: &str, engine: SearchEngine)
        requires
            old(self).well_formed(),
        ensures
            final(self).well_formed(),
            final(self).default_engine == old(self).default_engine,
            final(self).enable_search_suggestions == old(self).enable_search_suggestions,
            final(self).show_search_in_address_bar == old(self).show_search_in_address_bar,
            if old(self).has_engine(id@) {
                &&& final(self).ids() == old(self).ids()
                &&& final(self).engines() == old(self).engines().update(
                    old(self).ids().index_of(id@),
                    engine@,
                )
            } else {
                &&& final(self).ids() == old(self).ids().push(id@)
                &&& final(self).engines() == old(self).engines().push(engine@)
            },
    {
        let ghost value = engine@;
        let entry = SearchEngineEntry { id: id.to_string(), engine };
        match self.find(id) {
            Some(i) => {
                self.search_engines.remove(i);
                self.search_engines.insert(i, entry);
                proof {
                    assert(final(self).ids() =~= old(self).ids());
                    assert(final(self).engines() =~= old(self).engines().update(i as int, value));
                }
            },
            None => {
                self.search_engines.push(entry);
                proof {
                    assert(final(self).ids() =~= old(self).ids().push(id@));
                    assert(final(self).engines() =~= old(self).engines().push(value));
                }
            },
        }
    }

    /// Removes the engine with the id `id`. The default engine cannot be
    /// removed, nor one that is not there.
    pub fn remove_search_engine(&mut self, id: &str) -> (done: Result<(), SearchEngineError>)
        requires
            old(self).well_formed(),
        ensures
            final(self).well_formed(),
            final(self).default_engine == old(self).default_engine,
            final(self).enable_search_suggestions == old(self).enable_search_suggestions,
            final(self).show_search_in_address_bar == old(self).show_search_in_address_bar,
            match done {
                Ok(()) => {
                    &&& id@ != old(self).default_engine@
                    &&& old(self).has_engine(id@)
                    &&& final(self).ids() == old(self).ids().remove(old(self).ids().index_of(id@))
                    &&& final(self).engines() == old(self).engines().remove(
                        old(self).ids().index_of(id@),
                    )
                },
                Err(e) => {
                    &&& final(self).ids() == old(self).ids()
                    &&& final(self).engines() == old(self).engines()
                    &&& e == if id@ == old(self).default_engine@ {
                        SearchEngineError::IsDefault
                    } else {
                        SearchEngineError::NotFound
                    }
                    &&& (id@ != old(self).default_engine@ ==> !old(self).has_engine(id@))
                },
            },
    {
        let chars = text::chars_of(id);
        if text::equals_str(chars.as_slice(), self.default_engine.as_str()) {
            return Err(SearchEngineError::IsDefault);
        }
        match self.find(id) {
            Some(i) => {
                self.search_engines.remove(i);
                proof {
                    assert(final(self).ids() =~= old(self).ids().remove(i as int));
                    assert(final(self).engines() =~= old(self).engines().remove(i as int));
                }
                Ok(())
            },
            None => Err(SearchEngineError::NotFound),
        }
    }

    /// Makes the engine with the id `id` the default. Fails where there is
    /// no such engine.
    pub fn set_default_search_engine(&mut self, id: &str) -> (done: Result<(), SearchEngineError>)
        requires
            old(self).well_formed(),
        ensures
            final(self).well_formed(),
            final(self).search_engines == old(self).search_engines,
            final(self).enable_search_suggestions == old(self).enable_search_suggestions,
            final(self).show_search_in_address_bar == old(self).show_search_in_address_bar,
            match done {
                Ok(()) => old(self).has_engine(id@) && final(self).default_engine@ == id@,
                Err(e) => !old(self).has_engine(id@) && e == SearchEngineError::NotFound && final(self).default_engine == old(self).default_engine,
            },
    {
        match self.find(id) {
            Some(_) => {
                self.default_engine = id.to_string();
                Ok(())
            },
            None => Err(SearchEngineError::NotFound),
        }
    }

    /// The address of a search for `query` with the default engine; `None`
    /// where the default engine is not there.
    pub fn get_search_url(&self, query: &str) -> (address: Option<String>)
        requires
            self.well_formed(),
        ensures
            match address {
                Some(a) => self.has_engine(self.default_engine@) && a@ == search_address(
                    self.engine(self.default_engine@).url,
                    query@,
                ),
                None => !self.has_engine(self.default_engine@),
            },
    {
        match self.find(self.default_engine.as_str()) {
            Some(i) => {
                let encoded = percent_encode(query);
                Some(fill_search_terms(self.search_engines[i].engine.url.as_str(), encoded.as_str()))
            },
            None => None,
        }
    }

    /// The address of the suggestions for `query` with the default engine;
    /// `None` where the default engine is not there or gives no
    /// suggestions.
    pub fn get_suggestion_url(&self, query: &str) -> (address: Option<String>)
        requires
            self.well_formed(),
        ensures
            match address {
                Some(a) => {
                    &&& self.has_engine(self.default_engine@)
                    &&& self.engine(self.default_engine@).suggest_url is Some
                    &&& a@ == search_address(
                        self.engine(self.default_engine@).suggest_url->Some_0,
                        query@,
                    )
                },
                None => !self.has_engine(self.default_engine@) || self.engine(
                    self.default_engine@,
                ).suggest_url is None,
            },
    {
        match self.find(self.default_engine.as_str()) {
            Some(i) => match &self.search_engines[i].engine.suggest_url {
                Some(template) => {
                    let encoded = percent_encode(query);
                    Some(fill_search_terms(template.as_str(), encoded.as_str()))
                },
                None => None,
            },
            None => None,
        }
    }
}

} // verus!
