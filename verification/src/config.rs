//! Process-wide configuration: loaded once, read on every request.

use vstd::prelude::*;

verus! {

/// Base URLs of the upstream providers.
#[derive(Debug, PartialEq, Eq)]
pub struct BaseUrlConfig {
    pub weather_api: String,
    pub spotify_api: String,
    pub spotify_accounts: String,
    pub spotify_accounts_api: String,
}

/// Key and city for the weather provider.
#[derive(Debug, PartialEq, Eq)]
pub struct WeatherConfig {
    pub key: String,
    pub city: String,
}

/// Client credentials for the music provider.
#[derive(Debug, PartialEq, Eq)]
pub struct SpotifyConfig {
    pub client_id: String,
    pub secret: String,
    pub redirect_uri: String,
}

/// Where the cache is reached.
#[derive(Debug, PartialEq, Eq)]
pub struct RedisConfig {
    pub host: String,
}

/// Everything the service is configured with.
#[derive(Debug, PartialEq, Eq)]
pub struct Config {
    pub base_url: BaseUrlConfig,
    pub weather: WeatherConfig,
    pub spotify: SpotifyConfig,
    pub redis: RedisConfig,
}

impl Clone for BaseUrlConfig {
    fn clone(&self) -> (copy: Self)
        ensures
            copy == *self,
    {
        BaseUrlConfig {
            weather_api: self.weather_api.clone(),
            spotify_api: self.spotify_api.clone(),
            spotify_accounts: self.spotify_accounts.clone(),
            spotify_accounts_api: self.spotify_accounts_api.clone(),
        }
    }
}

impl Clone for WeatherConfig {
    fn clone(&self) -> (copy: Self)
        ensures
            copy == *self,
    {
        WeatherConfig { key: self.key.clone(), city: self.city.clone() }
    }
}

impl Clone for SpotifyConfig {
    fn clone(&self) -> (copy: Self)
        ensures
            copy == *self,
    {
        SpotifyConfig {
            client_id: self.client_id.clone(),
            secret: self.secret.clone(),
            redirect_uri: self.redirect_uri.clone(),
        }
    }
}

impl Clone for RedisConfig {
    fn clone(&self) -> (copy: Self)
        ensures
            copy == *self,
    {
        RedisConfig { host: self.host.clone() }
    }
}

impl Clone for Config {
    fn clone(&self) -> (copy: Self)
        ensures
            copy == *self,
    {
        Config {
            base_url: self.base_url.clone(),
            weather: self.weather.clone(),
            spotify: self.spotify.clone(),
            redis: self.redis.clone(),
        }
    }
}

/// The single slot that holds the configuration: empty until it is loaded,
/// and read-only afterwards.
pub struct ConfigSlot {
    pub loaded: Option<Config>,
}

impl ConfigSlot {
    /// Whether a configuration has been stored.
    pub open spec fn is_loaded(&self) -> bool {
        self.loaded is Some
    }

    /// An empty slot.
    pub fn new() -> (slot: Self)
        ensures
            slot.loaded is None,
    {
        ConfigSlot { loaded: None }
    }

    /// Stores `config`, replacing what the slot held.
    pub fn store(&mut self, config: Config)
        ensures
            final(self).loaded == Some(config),
    {
        self.loaded = Some(config);
    }

    /// Whether a configuration has been stored.
    pub fn holds_config(&self) -> (held: bool)
        ensures
            held == self.is_loaded(),
    {
        self.loaded.is_some()
    }
}

/// A copy of the configuration in `slot`. The slot must have been loaded.
pub fn get_config(slot: &ConfigSlot) -> (config: Config)
    requires
        slot.is_loaded(),
    ensures
        slot.loaded == Some(config),
{
    match &slot.loaded {
        Some(config) => config.clone(),
        None => unreached(),
    }
}

} // verus!
