use vstd::prelude::*;
use crate::cache::MappingCache;
use crate::text_set::{DisallowedCodes, TokenStore};

verus! {

/// What was configured at startup.
pub struct Config {
    /// Where the root path redirects to; without it the root serves the
    /// static page.
    pub root: Option<String>,
}

/// The process-wide components, built once at startup and handed to every
/// request. A component that is `None` was never set up.
pub struct AppState {
    pub links: Option<MappingCache>,
    pub disallowed: Option<DisallowedCodes>,
    pub tokens: Option<TokenStore>,
    pub config: Option<Config>,
}

/// The components as mathematical values.
pub struct StateView {
    pub links: Option<Map<Seq<char>, Seq<char>>>,
    pub disallowed: Option<Set<Seq<char>>>,
    pub tokens: Option<Set<Seq<char>>>,
    pub root: Option<Option<Seq<char>>>,
}

/// The configured root target of a configuration, as a value.
pub open spec fn root_of(config: Config) -> Option<Seq<char>> {
    match config.root {
        Some(target) => Some(target@),
        None => None,
    }
}

impl View for AppState {
    type V = StateView;

    open spec fn view(&self) -> StateView {
        StateView {
            links: match self.links {
                Some(cache) => Some(cache@),
                None => None,
            },
            disallowed: match self.disallowed {
                Some(codes) => Some(codes@),
                None => None,
            },
            tokens: match self.tokens {
                Some(store) => Some(store@),
                None => None,
            },
            root: match self.config {
                Some(config) => Some(root_of(config)),
                None => None,
            },
        }
    }
}

impl AppState {
    /// The mapping cache, where there is one, stores no code twice.
    pub open spec fn wf(&self) -> bool {
        self.links matches Some(cache) ==> cache.wf()
    }

    /// The state before anything was set up.
    pub fn new() -> (state: AppState)
        ensures
            state.wf(),
            state@ == (StateView { links: None, disallowed: None, tokens: None, root: None }),
    {
        AppState { links: None, disallowed: None, tokens: None, config: None }
    }
}

} // verus!
