//! The client: where the service is, where the cache lies, and the catalog
//! that is currently held.

use crate::model::{clone_models, snapshot, FuelModel, ModelValue};
use std::path::PathBuf;
use vstd::prelude::*;

verus! {

/// `std::path::PathBuf`, carried through as an opaque value: the library
/// stores and hands out cache locations and never looks inside one.
#[verifier::external_type_specification]
#[verifier::external_body]
pub struct ExPathBuf(std::path::PathBuf);

/// `PathBuf::clone` of std: the copy is the same path.
pub assume_specification[ <std::path::PathBuf as Clone>::clone ](
    path: &std::path::PathBuf,
) -> (copy: std::path::PathBuf)
    ensures
        copy == *path,
;

/// The address of the public service, with its trailing slash.
pub const DEFAULT_URL: &'static str = "https://fuel.gazebosim.org/1.0/";

/// The cache file's place below the platform's cache directory: the names
/// of the two folders and of the file, in order.
pub open spec fn cache_subpath() -> Seq<Seq<char>> {
    seq!["open-robotics"@, "gz-fuel"@, "model_cache.json"@]
}

/// A catalog client.
///
/// A client is a plain value and its copies are independent of it, but
/// copies share the cache location. Nothing here coordinates two clients
/// that write to the same cache file: whoever writes last wins.
#[derive(Debug)]
pub struct FuelClient {
    /// Base address of the service; page addresses are formed by appending to it.
    pub url: String,
    /// Where the cache file lies, once that is settled.
    pub cache_path: Option<PathBuf>,
    /// The catalog held, if any was loaded or fetched.
    pub models: Option<Vec<FuelModel>>,
    /// Sent with every request as `Private-token` when present.
    pub token: Option<String>,
}

/// What a [`FuelClient`] stands for.
pub ghost struct ClientValue {
    pub url: Seq<char>,
    pub cache_path: Option<PathBuf>,
    pub models: Option<Seq<ModelValue>>,
    pub token: Option<Seq<char>>,
}

/// The value of an optional catalog.
pub open spec fn held(models: Option<Vec<FuelModel>>) -> Option<Seq<ModelValue>> {
    match models {
        Some(list) => Some(snapshot(list@)),
        None => None,
    }
}

impl View for FuelClient {
    type V = ClientValue;

    open spec fn view(&self) -> ClientValue {
        ClientValue {
            url: self.url@,
            cache_path: self.cache_path,
            models: held(self.models),
            token: match self.token {
                Some(token) => Some(token@),
                None => None,
            },
        }
    }
}

impl Clone for FuelClient {
    fn clone(&self) -> (copy: Self)
        ensures
            copy@ == self@,
    {
        FuelClient {
            url: self.url.clone(),
            cache_path: match &self.cache_path {
                Some(path) => Some(path.clone()),
                None => None,
            },
            models: match &self.models {
                Some(models) => Some(clone_models(models)),
                None => None,
            },
            token: match &self.token {
                Some(token) => Some(token.clone()),
                None => None,
            },
        }
    }
}

impl Default for FuelClient {
    /// A client of the public service that holds no catalog and has no
    /// cache location yet; [`FuelClient::with_cache`] gives it both.
    fn default() -> (client: Self)
        ensures
            client@ == (ClientValue {
                url: DEFAULT_URL@,
                cache_path: None,
                models: None,
                token: None,
            }),
    {
        FuelClient { url: DEFAULT_URL.to_owned(), cache_path: None, models: None, token: None }
    }
}

/// The first of two optional locations that is there.
pub open spec fn first_location(given: Option<PathBuf>, fallback: Option<PathBuf>) -> Option<
    PathBuf,
> {
    if given is Some {
        given
    } else {
        fallback
    }
}

impl ClientValue {
    /// This client after it was pointed at a cache location and given
    /// what could be loaded from there. Without a location nothing changes.
    pub open spec fn with_cache(
        self,
        location: Option<PathBuf>,
        cached: Option<Seq<ModelValue>>,
    ) -> ClientValue {
        match location {
            Some(path) => ClientValue { cache_path: Some(path), models: cached, ..self },
            None => self,
        }
    }
}

impl FuelClient {
    /// The names to append, one after the other, to the platform's cache
    /// directory to get the default cache location.
    pub fn default_cache_subpath() -> (names: Vec<&'static str>)
        ensures
            names@.map_values(|name: &'static str| name@) == cache_subpath(),
    {
        let mut names: Vec<&'static str> = Vec::new();
        names.push("open-robotics");
        names.push("gz-fuel");
        names.push("model_cache.json");
        names
    }

    /// Settles where the cache lies: at the location given, or else at
    /// the fallback, which the host resolves for the platform.
    pub fn cache_location(given: Option<PathBuf>, fallback: Option<PathBuf>) -> (location: Option<
        PathBuf,
    >)
        ensures
            location == first_location(given, fallback),
    {
        match given {
            Some(path) => Some(path),
            None => fallback,
        }
    }

    /// Points the client at a cache location and takes over what the
    /// host could load from it.
    ///
    /// `cached` is the catalog read from `location`, or `None` where the
    /// file was missing, unreadable or not a catalog; a catalog held
    /// before is replaced either way. Without a location the client is
    /// returned as it was and `cached` is dropped.
    pub fn with_cache(self, location: Option<PathBuf>, cached: Option<Vec<FuelModel>>) -> (client:
        Self)
        ensures
            client@ == self@.with_cache(location, held(cached)),
    {
        match location {
            Some(path) => FuelClient {
                url: self.url,
                cache_path: Some(path),
                models: cached,
                token: self.token,
            },
            None => self,
        }
    }
}

} // verus!
