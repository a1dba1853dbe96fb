use site_backend::config::{
    get_config, BaseUrlConfig, Config, ConfigSlot, RedisConfig, SpotifyConfig, WeatherConfig,
};

fn sample_config() -> Config {
    Config {
        base_url: BaseUrlConfig {
            weather_api: "https://weather.example/v1".to_string(),
            spotify_api: "https://music.example/v1".to_string(),
            spotify_accounts: "https://accounts.example".to_string(),
            spotify_accounts_api: "https://accounts.example/api".to_string(),
        },
        weather: WeatherConfig { key: "k3y".to_string(), city: "Oslo".to_string() },
        spotify: SpotifyConfig {
            client_id: "abc".to_string(),
            secret: "def".to_string(),
            redirect_uri: "https://site.example/callback".to_string(),
        },
        redis: RedisConfig { host: "redis://127.0.0.1/".to_string() },
    }
}

#[test]
fn new_slot_is_empty() {
    let slot = ConfigSlot::new();
    assert!(!slot.holds_config());
    assert!(slot.loaded.is_none());
}

#[test]
fn stored_config_is_returned() {
    let mut slot = ConfigSlot::new();
    slot.store(sample_config());
    assert!(slot.holds_config());
    assert_eq!(get_config(&slot), sample_config());
    // Reading does not empty the slot.
    assert_eq!(get_config(&slot), sample_config());
}

#[test]
fn storing_again_replaces_the_config() {
    let mut slot = ConfigSlot::new();
    slot.store(sample_config());
    let mut other = sample_config();
    other.weather.city = "Bergen".to_string();
    slot.store(other.clone());
    assert_eq!(get_config(&slot), other);
}

#[test]
fn config_clone_keeps_every_field() {
    let config = sample_config();
    let copy = config.clone();
    assert_eq!(copy, config);
    assert_eq!(copy.base_url.spotify_accounts, "https://accounts.example");
    assert_eq!(copy.spotify.redirect_uri, "https://site.example/callback");
    assert_eq!(copy.redis.host, "redis://127.0.0.1/");
}
