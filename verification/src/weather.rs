//! The weather endpoint: cache first, the provider on a miss, and the cache
//! entry written from what the provider said.

use vstd::prelude::*;
use crate::config::Config;
use crate::text::joined;

verus! {

/// A temperature as the bit pattern of an IEEE 754 single-precision number.
/// Nothing here computes with it: it is carried from the provider to the
/// caller unchanged.
#[derive(Debug, Clone, Copy, PartialEq, Eq, Structural)]
pub struct Temperature {
    pub bits: u32,
}

/// The provider's answer.
#[derive(Debug, Clone, PartialEq, Eq)]
pub struct WeatherApiResponse {
    pub current: WeatherApiCurrent,
}

#[derive(Debug, Clone, PartialEq, Eq)]
pub struct WeatherApiCurrent {
    pub temp_c: Temperature,
    pub temp_f: Temperature,
    pub condition: WeatherApiCondition,
}

#[derive(Debug, Clone, PartialEq, Eq)]
pub struct WeatherApiCondition {
    pub text: String,
}

/// The weather in the shape handed to callers and kept in the cache.
#[derive(Debug, Clone, PartialEq, Eq)]
pub struct WeatherResponse {
    pub temp_c: Temperature,
    pub temp_f: Temperature,
    pub condition: String,
}

/// What to do for a weather request once the cache has been asked.
#[derive(Debug, Clone, PartialEq, Eq)]
pub enum WeatherPlan {
    /// The cache held an entry: answer with it, and call nobody.
    ServeCached(String),
    /// The cache held nothing: ask the provider at this address.
    FetchUpstream(String),
}

/// A plan with its texts as sequences of characters.
pub enum WeatherPlanView {
    ServeCached(Seq<char>),
    FetchUpstream(Seq<char>),
}

impl View for WeatherPlan {
    type V = WeatherPlanView;

    open spec fn view(&self) -> WeatherPlanView {
        match *self {
            WeatherPlan::ServeCached(text) => WeatherPlanView::ServeCached(text@),
            WeatherPlan::FetchUpstream(url) => WeatherPlanView::FetchUpstream(url@),
        }
    }
}

/// One entry to write to the cache.
#[derive(Debug, Clone, PartialEq, Eq)]
pub struct CacheWrite {
    pub key: String,
    pub value: String,
    pub ttl_seconds: u64,
}

/// What a request that missed the cache ends in: the entry to write and the
/// body to answer with.
#[derive(Debug, Clone, PartialEq, Eq)]
pub struct WeatherMiss {
    pub store: CacheWrite,
    pub body: String,
}

/// Seconds after which a cached weather entry expires.
pub const WEATHER_TTL_SECONDS: u64 = 3600;

/// Status of this service's own answer when the weather provider failed.
pub const STATUS_BAD_GATEWAY: u16 = 502;

/// Whether an HTTP status reports success.
pub open spec fn is_success(status: u16) -> bool {
    200 <= status <= 299
}

/// The cache key of the weather in one language.
pub open spec fn weather_key(lang: Seq<char>) -> Seq<char> {
    "weather_"@ + lang
}

/// Address of the provider's current weather for the configured city, in one
/// language.
pub open spec fn weather_url(
    api: Seq<char>,
    key: Seq<char>,
    city: Seq<char>,
    lang: Seq<char>,
) -> Seq<char> {
    api + "/current.json?key="@ + key + "&q="@ + city + "&aqi=no&lang="@ + lang
}

/// The plan for a request: a non-empty cached text is served as it is, and
/// an empty one sends the request to the provider.
pub open spec fn weather_plan(
    cached: Seq<char>,
    api: Seq<char>,
    key: Seq<char>,
    city: Seq<char>,
    lang: Seq<char>,
) -> WeatherPlanView {
    if cached.len() > 0 {
        WeatherPlanView::ServeCached(cached)
    } else {
        WeatherPlanView::FetchUpstream(weather_url(api, key, city, lang))
    }
}

/// The provider's answer in the shape handed to callers.
pub open spec fn weather_view(api: WeatherApiResponse) -> WeatherResponse {
    WeatherResponse {
        temp_c: api.current.temp_c,
        temp_f: api.current.temp_f,
        condition: api.current.condition.text,
    }
}

/// What the provider's answer comes to: the weather where the status
/// reports success and the body could be read, else a bad gateway.
pub open spec fn upstream_weather(status: u16, parsed: Option<WeatherApiResponse>) -> Result<
    WeatherResponse,
    u16,
> {
    if is_success(status) && parsed is Some {
        Ok(weather_view(parsed->0))
    } else {
        Err(STATUS_BAD_GATEWAY)
    }
}

/// The text that a cache lookup stands for: what the cache held, or the
/// empty text where the lookup failed for whatever reason.
pub open spec fn cached_text<E>(lookup: Result<String, E>) -> Seq<char> {
    match lookup {
        Ok(text) => text@,
        Err(_) => Seq::<char>::empty(),
    }
}

/// Builds the cache key of the weather in `lang`.
pub fn weather_cache_key(lang: &str) -> (key: String)
    ensures
        key@ == weather_key(lang@),
{
    joined("weather_", lang)
}

/// Reads the result of a cache lookup. Every failure of the cache counts as
/// a miss, and a miss is the empty text.
pub fn get_cached_localized_weather<E>(lookup: Result<String, E>) -> (cached: String)
    ensures
        cached@ == cached_text(lookup),
{
    match lookup {
        Ok(weather) => weather,
        Err(_) => String::new(),
    }
}

/// The entry under which `value` is cached as the weather in `lang`.
pub fn set_weather_cache(lang: &str, value: String) -> (entry: CacheWrite)
    ensures
        entry.key@ == weather_key(lang@),
        entry.value == value,
        entry.ttl_seconds == WEATHER_TTL_SECONDS,
{
    CacheWrite { key: weather_cache_key(lang), value, ttl_seconds: WEATHER_TTL_SECONDS }
}

/// Decides between the cache and the provider. A non-empty cached text is
/// served as it is; an empty one sends the request to the provider.
pub fn get_weather(cached: String, config: &Config, lang: &str) -> (plan: WeatherPlan)
    ensures
        plan@ == weather_plan(
            cached@,
            config.base_url.weather_api@,
            config.weather.key@,
            config.weather.city@,
            lang@,
        ),
{
    if !cached.as_str().is_empty() {
        return WeatherPlan::ServeCached(cached);
    }
    let mut url = joined(config.base_url.weather_api.as_str(), "/current.json?key=");
    url.push_str(config.weather.key.as_str());
    url.push_str("&q=");
    url.push_str(config.weather.city.as_str());
    url.push_str("&aqi=no&lang=");
    url.push_str(lang);
    WeatherPlan::FetchUpstream(url)
}

/// Brings the provider's answer into the shape handed to callers.
pub fn weather_from_upstream(api: WeatherApiResponse) -> (view: WeatherResponse)
    ensures
        view == weather_view(api),
{
    WeatherResponse {
        temp_c: api.current.temp_c,
        temp_f: api.current.temp_f,
        condition: api.current.condition.text,
    }
}

/// Reads the provider's answer. `parsed` is the body read as weather, or
/// `None` where it could not be read so. A failure of the provider is
/// answered with the status in the error, and nothing is cached for it.
pub fn read_upstream_weather(status: u16, parsed: Option<WeatherApiResponse>) -> (answer: Result<
    WeatherResponse,
    u16,
>)
    ensures
        answer == upstream_weather(status, parsed),
{
    if status < 200 || status > 299 {
        return Err(STATUS_BAD_GATEWAY);
    }
    match parsed {
        Some(api) => Ok(weather_from_upstream(api)),
        None => Err(STATUS_BAD_GATEWAY),
    }
}

/// The outcome of a request that the provider never answered: a bad gateway,
/// as for an answer that reports a failure.
pub fn upstream_without_answer() -> (answer: Result<WeatherResponse, u16>)
    ensures
        answer == Err::<WeatherResponse, u16>(STATUS_BAD_GATEWAY),
{
    Err(STATUS_BAD_GATEWAY)
}

/// Ends a request that missed the cache. `serialized` is the weather as JSON
/// text; it is answered to the caller and cached under the language's key.
pub fn weather_miss(lang: &str, serialized: String) -> (miss: WeatherMiss)
    ensures
        miss.body == serialized,
        miss.store.value == miss.body,
        miss.store.key@ == weather_key(lang@),
        miss.store.ttl_seconds == WEATHER_TTL_SECONDS,
{
    let body = serialized.clone();
    WeatherMiss { store: set_weather_cache(lang, serialized), body }
}

/// A lookup that found a non-empty entry is answered with that entry,
/// character for character, and the provider is not asked, whatever the
/// configuration and the language.
pub proof fn cached_entry_is_served<E>(
    entry: String,
    api: Seq<char>,
    key: Seq<char>,
    city: Seq<char>,
    lang: Seq<char>,
)
    requires
        entry@.len() > 0,
    ensures
        weather_plan(cached_text(Ok::<String, E>(entry)), api, key, city, lang)
            == WeatherPlanView::ServeCached(entry@),
{
}

/// A lookup that failed, or that found the empty text, sends the request to
/// the provider.
pub proof fn cache_failure_is_a_miss<E>(
    lookup: Result<String, E>,
    api: Seq<char>,
    key: Seq<char>,
    city: Seq<char>,
    lang: Seq<char>,
)
    requires
        lookup is Err || lookup->Ok_0@.len() == 0,
    ensures
        weather_plan(cached_text(lookup), api, key, city, lang)
            == WeatherPlanView::FetchUpstream(weather_url(api, key, city, lang)),
{
}

} // verus!
