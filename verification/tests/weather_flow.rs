use site_backend::config::{BaseUrlConfig, Config, RedisConfig, SpotifyConfig, WeatherConfig};
use site_backend::weather::{
    get_cached_localized_weather, get_weather, read_upstream_weather, set_weather_cache,
    upstream_without_answer, weather_cache_key, weather_from_upstream, weather_miss, STATUS_BAD_GATEWAY, CacheWrite, Temperature, WeatherApiCondition,
    WeatherApiCurrent, WeatherApiResponse, WeatherPlan, WeatherResponse, WEATHER_TTL_SECONDS,
};

fn weather_config() -> Config {
    Config {
        base_url: BaseUrlConfig {
            weather_api: "https://weather.example/v1".to_string(),
            spotify_api: String::new(),
            spotify_accounts: String::new(),
            spotify_accounts_api: String::new(),
        },
        weather: WeatherConfig { key: "k3y".to_string(), city: "Oslo".to_string() },
        spotify: SpotifyConfig {
            client_id: String::new(),
            secret: String::new(),
            redirect_uri: String::new(),
        },
        redis: RedisConfig { host: String::new() },
    }
}

fn degrees(value: f32) -> Temperature {
    Temperature { bits: value.to_bits() }
}

#[test]
fn cache_key_is_prefix_and_language() {
    assert_eq!(weather_cache_key("en"), "weather_en");
    assert_eq!(weather_cache_key(""), "weather_");
    assert_eq!(weather_cache_key("pt-BR"), "weather_pt-BR");
}

#[test]
fn ttl_is_one_hour() {
    assert_eq!(WEATHER_TTL_SECONDS, 3600);
}

#[test]
fn found_entry_is_handed_on() {
    let lookup: Result<String, ()> = Ok("{\"temp_c\":1.0}".to_string());
    assert_eq!(get_cached_localized_weather(lookup), "{\"temp_c\":1.0}");
}

#[test]
fn cache_failure_reads_as_empty() {
    let lookup: Result<String, &str> = Err("connection refused");
    assert_eq!(get_cached_localized_weather(lookup), "");
}

#[test]
fn cached_entry_is_served_without_upstream() {
    let cached = "{\"temp_c\":10.0,\"temp_f\":50.0,\"condition\":\"Clear\"}".to_string();
    let plan = get_weather(cached.clone(), &weather_config(), "en");
    assert_eq!(plan, WeatherPlan::ServeCached(cached));
}

#[test]
fn malformed_cached_entry_is_still_a_hit() {
    let plan = get_weather("not json".to_string(), &weather_config(), "en");
    assert_eq!(plan, WeatherPlan::ServeCached("not json".to_string()));
}

#[test]
fn miss_asks_the_provider() {
    let plan = get_weather(String::new(), &weather_config(), "en");
    assert_eq!(
        plan,
        WeatherPlan::FetchUpstream(
            "https://weather.example/v1/current.json?key=k3y&q=Oslo&aqi=no&lang=en".to_string()
        )
    );
}

#[test]
fn cache_failure_asks_the_provider() {
    let lookup: Result<String, u8> = Err(7);
    let plan = get_weather(get_cached_localized_weather(lookup), &weather_config(), "de");
    assert_eq!(
        plan,
        WeatherPlan::FetchUpstream(
            "https://weather.example/v1/current.json?key=k3y&q=Oslo&aqi=no&lang=de".to_string()
        )
    );
}

#[test]
fn cache_entry_expires_after_an_hour() {
    let entry = set_weather_cache("fr", "body".to_string());
    assert_eq!(
        entry,
        CacheWrite { key: "weather_fr".to_string(), value: "body".to_string(), ttl_seconds: 3600 }
    );
}

#[test]
fn upstream_answer_is_flattened() {
    let api = WeatherApiResponse {
        current: WeatherApiCurrent {
            temp_c: degrees(-3.5),
            temp_f: degrees(25.7),
            condition: WeatherApiCondition { text: "Snow".to_string() },
        },
    };
    let view = weather_from_upstream(api);
    assert_eq!(f32::from_bits(view.temp_c.bits), -3.5);
    assert_eq!(f32::from_bits(view.temp_f.bits), 25.7);
    assert_eq!(view.condition, "Snow");
}

fn snow() -> WeatherApiResponse {
    WeatherApiResponse {
        current: WeatherApiCurrent {
            temp_c: degrees(-3.5),
            temp_f: degrees(25.7),
            condition: WeatherApiCondition { text: "Snow".to_string() },
        },
    }
}

#[test]
fn successful_answer_is_read() {
    let expected = WeatherResponse {
        temp_c: degrees(-3.5),
        temp_f: degrees(25.7),
        condition: "Snow".to_string(),
    };
    assert_eq!(read_upstream_weather(200, Some(snow())), Ok(expected.clone()));
    assert_eq!(read_upstream_weather(299, Some(snow())), Ok(expected));
}

#[test]
fn failed_answer_is_a_bad_gateway() {
    assert_eq!(STATUS_BAD_GATEWAY, 502);
    assert_eq!(read_upstream_weather(200, None), Err(502));
    assert_eq!(read_upstream_weather(199, Some(snow())), Err(502));
    assert_eq!(read_upstream_weather(300, Some(snow())), Err(502));
    assert_eq!(read_upstream_weather(401, Some(snow())), Err(502));
    assert_eq!(read_upstream_weather(500, None), Err(502));
}

#[test]
fn missing_answer_is_a_bad_gateway() {
    assert_eq!(upstream_without_answer(), Err(502));
}

#[test]
fn miss_stores_what_it_answers() {
    let miss = weather_miss("en", "payload".to_string());
    assert_eq!(miss.body, "payload");
    assert_eq!(miss.store.value, miss.body);
    assert_eq!(miss.store.key, "weather_en");
    assert_eq!(miss.store.ttl_seconds, 3600);
}

#[test]
fn clear_weather_is_answered_and_cached() {
    let config = weather_config();
    let lookup: Result<String, ()> = Err(());
    let cached = get_cached_localized_weather(lookup);
    let plan = get_weather(cached, &config, "en");
    assert!(matches!(plan, WeatherPlan::FetchUpstream(_)));

    let api = WeatherApiResponse {
        current: WeatherApiCurrent {
            temp_c: degrees(10.0),
            temp_f: degrees(50.0),
            condition: WeatherApiCondition { text: "Clear".to_string() },
        },
    };
    let view = weather_from_upstream(api);
    assert_eq!(
        view,
        WeatherResponse {
            temp_c: degrees(10.0),
            temp_f: degrees(50.0),
            condition: "Clear".to_string()
        }
    );
    let serialized = format!(
        "{{\"temp_c\":{:?},\"temp_f\":{:?},\"condition\":\"{}\"}}",
        f32::from_bits(view.temp_c.bits),
        f32::from_bits(view.temp_f.bits),
        view.condition
    );
    let miss = weather_miss("en", serialized);
    assert_eq!(miss.body, "{\"temp_c\":10.0,\"temp_f\":50.0,\"condition\":\"Clear\"}");
    assert_eq!(miss.store.key, "weather_en");
    assert_eq!(miss.store.value, miss.body);
    assert_eq!(miss.store.ttl_seconds, 3600);

    // The entry, once written, is what the next request is served with.
    let next: Result<String, ()> = Ok(miss.store.value.clone());
    let plan = get_weather(get_cached_localized_weather(next), &config, "en");
    assert_eq!(plan, WeatherPlan::ServeCached(miss.body));
}
