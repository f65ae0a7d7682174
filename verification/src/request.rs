//! The request as the engine sees it, and the field resolver.
//!
//! A condition names a request attribute by a symbolic field name. The
//! resolver maps that name to a text, read from the request's plain values,
//! from the geolocation and device lookups where the field needs one, or from
//! the header of that name where the name is none of the known ones.

use crate::text::{
    chars_of, copy_string, decimal, find_break, first_break, has_substring, lowercase, opt_str,
    opt_text, push_decimal, push_str, same_ignoring_ascii_case, slice_of, str_eq,
    str_eq_ignore_ascii_case, string_from_chars, to_lowercase, trim_range, trimmed,
};
use vstd::prelude::*;

verus! {

/// One request header: its name and its value.
#[derive(Debug, Clone, PartialEq, Eq)]
pub struct HeaderEntry {
    /// The header's name. Lookups ignore the case of ASCII letters.
    pub name: String,
    /// The header's value.
    pub value: String,
}

/// The mathematical view of [`HeaderEntry`]: texts are sequences of characters.
pub struct HeaderEntryView {
    pub name: Seq<char>,
    pub value: Seq<char>,
}

impl View for HeaderEntry {
    type V = HeaderEntryView;

    open spec fn view(&self) -> HeaderEntryView {
        HeaderEntryView {
            name: self.name@,
            value: self.value@,
        }
    }
}

/// What the engine reads of an incoming request, as plain values.
///
/// The host takes these from the transport once per request. Lookups that
/// may be expensive (geolocation, device detection) are not part of it: see
/// [`GeoInfo`] and [`DeviceInfo`].
#[derive(Debug, Clone, PartialEq, Eq)]
pub struct RequestInfo {
    /// The request method, such as `GET`.
    pub method: String,
    /// The path of the request URL.
    pub path: String,
    /// The whole request URL, query string included.
    pub url: String,
    /// The request headers, in the order the transport reports them.
    pub headers: Vec<HeaderEntry>,
    /// The client's address as the platform reports it, in text form.
    pub client_ip: Option<String>,
    /// Whether the platform flags the request as part of an attack.
    pub ddos_detected: Option<bool>,
    /// The point of presence that the process runs in, where it is known.
    pub pop: Option<String>,
}

/// The mathematical view of [`RequestInfo`]: texts are sequences of characters.
pub struct RequestInfoView {
    pub method: Seq<char>,
    pub path: Seq<char>,
    pub url: Seq<char>,
    pub headers: Seq<HeaderEntryView>,
    pub client_ip: Option<Seq<char>>,
    pub ddos_detected: Option<bool>,
    pub pop: Option<Seq<char>>,
}

impl View for RequestInfo {
    type V = RequestInfoView;

    open spec fn view(&self) -> RequestInfoView {
        RequestInfoView {
            method: self.method@,
            path: self.path@,
            url: self.url@,
            headers: self.headers@.map_values(|x: HeaderEntry| x@),
            client_ip: opt_text(self.client_ip),
            ddos_detected: self.ddos_detected,
            pop: opt_text(self.pop),
        }
    }
}

/// An offset from UTC in whole hours and minutes.
#[derive(Debug, Clone, Copy, PartialEq, Eq)]
pub struct UtcOffset {
    /// Hours, negative west of Greenwich.
    pub hours: i8,
    /// Minutes, with the sign of the offset.
    pub minutes: i8,
}

/// The mathematical view of [`UtcOffset`]: texts are sequences of characters.
pub struct UtcOffsetView {
    pub hours: i8,
    pub minutes: i8,
}

impl View for UtcOffset {
    type V = UtcOffsetView;

    open spec fn view(&self) -> UtcOffsetView {
        UtcOffsetView {
            hours: self.hours,
            minutes: self.minutes,
        }
    }
}

/// The result of a geolocation lookup for the client address, as texts.
#[derive(Debug, Clone, PartialEq, Eq)]
pub struct GeoInfo {
    /// The autonomous system number.
    pub as_number: String,
    /// The two-letter country code.
    pub country_code: String,
    /// The three-letter country code.
    pub country_code3: String,
    /// The continent.
    pub continent: String,
    /// The city.
    pub city: String,
    /// The region code, where there is one.
    pub region: Option<String>,
    /// The postal code.
    pub postal_code: String,
    /// The latitude.
    pub latitude: String,
    /// The longitude.
    pub longitude: String,
    /// The metro code.
    pub metro_code: String,
    /// The offset of local time from UTC.
    pub utc_offset: Option<UtcOffset>,
    /// The connection speed class.
    pub conn_speed: String,
    /// The connection type.
    pub conn_type: String,
    /// The proxy type.
    pub proxy_type: String,
    /// The proxy description.
    pub proxy_description: String,
}

/// The mathematical view of [`GeoInfo`]: texts are sequences of characters.
pub struct GeoInfoView {
    pub as_number: Seq<char>,
    pub country_code: Seq<char>,
    pub country_code3: Seq<char>,
    pub continent: Seq<char>,
    pub city: Seq<char>,
    pub region: Option<Seq<char>>,
    pub postal_code: Seq<char>,
    pub latitude: Seq<char>,
    pub longitude: Seq<char>,
    pub metro_code: Seq<char>,
    pub utc_offset: Option<UtcOffsetView>,
    pub conn_speed: Seq<char>,
    pub conn_type: Seq<char>,
    pub proxy_type: Seq<char>,
    pub proxy_description: Seq<char>,
}

impl View for GeoInfo {
    type V = GeoInfoView;

    open spec fn view(&self) -> GeoInfoView {
        GeoInfoView {
            as_number: self.as_number@,
            country_code: self.country_code@,
            country_code3: self.country_code3@,
            continent: self.continent@,
            city: self.city@,
            region: opt_text(self.region),
            postal_code: self.postal_code@,
            latitude: self.latitude@,
            longitude: self.longitude@,
            metro_code: self.metro_code@,
            utc_offset: match self.utc_offset {
                Some(x) => Some(x@),
                None => None,
            },
            conn_speed: self.conn_speed@,
            conn_type: self.conn_type@,
            proxy_type: self.proxy_type@,
            proxy_description: self.proxy_description@,
        }
    }
}

/// The result of a device-detection lookup for the user agent.
#[derive(Debug, Clone, PartialEq, Eq)]
pub struct DeviceInfo {
    /// Whether the user agent is a bot.
    pub is_bot: Option<bool>,
    /// Whether the device is a mobile phone.
    pub is_mobile: Option<bool>,
    /// Whether the device is a tablet.
    pub is_tablet: Option<bool>,
    /// Whether the device is a desktop computer.
    pub is_desktop: Option<bool>,
    /// Whether the device is a smart TV.
    pub is_smarttv: Option<bool>,
    /// Whether the device is a game console.
    pub is_gameconsole: Option<bool>,
    /// The name of the device.
    pub device_name: Option<String>,
    /// The brand of the device.
    pub brand: Option<String>,
    /// The model of the device.
    pub model: Option<String>,
    /// The name of the browser.
    pub user_agent_name: Option<String>,
    /// The major part of the browser's version.
    pub user_agent_major_version: Option<String>,
    /// The minor part of the browser's version.
    pub user_agent_minor_version: Option<String>,
    /// The name of the operating system.
    pub os_name: Option<String>,
    /// The major part of the operating system's version.
    pub os_major_version: Option<String>,
    /// The minor part of the operating system's version.
    pub os_minor_version: Option<String>,
}

/// The mathematical view of [`DeviceInfo`]: texts are sequences of characters.
pub struct DeviceInfoView {
    pub is_bot: Option<bool>,
    pub is_mobile: Option<bool>,
    pub is_tablet: Option<bool>,
    pub is_desktop: Option<bool>,
    pub is_smarttv: Option<bool>,
    pub is_gameconsole: Option<bool>,
    pub device_name: Option<Seq<char>>,
    pub brand: Option<Seq<char>>,
    pub model: Option<Seq<char>>,
    pub user_agent_name: Option<Seq<char>>,
    pub user_agent_major_version: Option<Seq<char>>,
    pub user_agent_minor_version: Option<Seq<char>>,
    pub os_name: Option<Seq<char>>,
    pub os_major_version: Option<Seq<char>>,
    pub os_minor_version: Option<Seq<char>>,
}

impl View for DeviceInfo {
    type V = DeviceInfoView;

    open spec fn view(&self) -> DeviceInfoView {
        DeviceInfoView {
            is_bot: self.is_bot,
            is_mobile: self.is_mobile,
            is_tablet: self.is_tablet,
            is_desktop: self.is_desktop,
            is_smarttv: self.is_smarttv,
            is_gameconsole: self.is_gameconsole,
            device_name: opt_text(self.device_name),
            brand: opt_text(self.brand),
            model: opt_text(self.model),
            user_agent_name: opt_text(self.user_agent_name),
            user_agent_major_version: opt_text(self.user_agent_major_version),
            user_agent_minor_version: opt_text(self.user_agent_minor_version),
            os_name: opt_text(self.os_name),
            os_major_version: opt_text(self.os_major_version),
            os_minor_version: opt_text(self.os_minor_version),
        }
    }
}

/// The view of an optional geolocation result.
pub open spec fn opt_geo(geo: Option<&GeoInfo>) -> Option<GeoInfoView> {
    match geo {
        Some(g) => Some(g@),
        None => None,
    }
}

/// The view of an optional device-detection result.
pub open spec fn opt_device(device: Option<&DeviceInfo>) -> Option<DeviceInfoView> {
    match device {
        Some(d) => Some(d@),
        None => None,
    }
}

// ---------------------------------------------------------------------------
// Field names
// ---------------------------------------------------------------------------

/// The request attributes that a condition can name. Each variant lists the
/// names that select it.
#[derive(Debug, Clone, Copy, PartialEq, Eq)]
pub enum Field {
    /// `path`
    Path,
    /// `query`
    Query,
    /// `method`
    Method,
    /// `host`
    Host,
    /// `scheme`
    Scheme,
    /// `clientIp`, `client-ip`, `ip`
    ClientIp,
    /// `asn`
    Asn,
    /// `datacenter`, `pop`
    Datacenter,
    /// `ddosDetected`
    DdosDetected,
    /// `country`
    Country,
    /// `countryCode3`
    CountryCode3,
    /// `continent`
    Continent,
    /// `city`
    City,
    /// `region`
    Region,
    /// `postalCode`
    PostalCode,
    /// `latitude`
    Latitude,
    /// `longitude`
    Longitude,
    /// `metroCode`
    MetroCode,
    /// `utcOffset`
    UtcOffset,
    /// `connSpeed`
    ConnSpeed,
    /// `connType`
    ConnType,
    /// `proxyType`
    ProxyType,
    /// `proxyDescription`
    ProxyDescription,
    /// `isHostingProvider`
    IsHostingProvider,
    /// `isBot`
    IsBot,
    /// `botName`
    BotName,
    /// `isMobile`
    IsMobile,
    /// `isTablet`
    IsTablet,
    /// `isDesktop`
    IsDesktop,
    /// `isSmartTV`
    IsSmartTv,
    /// `isGameConsole`
    IsGameConsole,
    /// `deviceName`
    DeviceName,
    /// `deviceBrand`
    DeviceBrand,
    /// `deviceModel`
    DeviceModel,
    /// `browserName`
    BrowserName,
    /// `browserVersion`
    BrowserVersion,
    /// `osName`
    OsName,
    /// `osVersion`
    OsVersion,
    /// `userAgent`, `user-agent`
    UserAgent,
    /// `referer`, `referrer`
    Referer,
    /// `accept`
    Accept,
    /// `acceptLanguage`, `accept-language`
    AcceptLanguage,
    /// `acceptEncoding`, `accept-encoding`
    AcceptEncoding,
    /// `contentType`, `content-type`
    ContentType,
    /// `cacheControl`, `cache-control`
    CacheControl,
    /// `xForwardedFor`, `x-forwarded-for`
    XForwardedFor,
    /// `xForwardedProto`, `x-forwarded-proto`
    XForwardedProto,
    /// `xRequestedWith`, `x-requested-with`
    XRequestedWith,
    /// `tlsVersion`, `tls-version`
    TlsVersion,
    /// `tlsCipher`, `tls-cipher`
    TlsCipher,
    /// `ja3`
    Ja3,
    /// `ja4`
    Ja4,
    /// `h2Fingerprint`, `h2-fingerprint`
    H2Fingerprint,
    /// `ohFingerprint`, `oh-fingerprint`
    OhFingerprint,
    /// Any other name: the header of that name.
    Header,
}

/// The lookup that a field's value comes from.
#[derive(Debug, Clone, Copy, PartialEq, Eq)]
pub enum Lookup {
    /// The request's own values suffice.
    Request,
    /// The geolocation of the client address.
    Geo,
    /// The device detection of the user agent.
    Device,
}

/// The attribute that a field name selects.
pub open spec fn field_of(name: Seq<char>) -> Field {
    if name == "path"@ {
        Field::Path
    } else if name == "query"@ {
        Field::Query
    } else if name == "method"@ {
        Field::Method
    } else if name == "host"@ {
        Field::Host
    } else if name == "scheme"@ {
        Field::Scheme
    } else if name == "clientIp"@ || name == "client-ip"@ || name == "ip"@ {
        Field::ClientIp
    } else if name == "asn"@ {
        Field::Asn
    } else if name == "datacenter"@ || name == "pop"@ {
        Field::Datacenter
    } else if name == "ddosDetected"@ {
        Field::DdosDetected
    } else if name == "country"@ {
        Field::Country
    } else if name == "countryCode3"@ {
        Field::CountryCode3
    } else if name == "continent"@ {
        Field::Continent
    } else if name == "city"@ {
        Field::City
    } else if name == "region"@ {
        Field::Region
    } else if name == "postalCode"@ {
        Field::PostalCode
    } else if name == "latitude"@ {
        Field::Latitude
    } else if name == "longitude"@ {
        Field::Longitude
    } else if name == "metroCode"@ {
        Field::MetroCode
    } else if name == "utcOffset"@ {
        Field::UtcOffset
    } else if name == "connSpeed"@ {
        Field::ConnSpeed
    } else if name == "connType"@ {
        Field::ConnType
    } else if name == "proxyType"@ {
        Field::ProxyType
    } else if name == "proxyDescription"@ {
        Field::ProxyDescription
    } else if name == "isHostingProvider"@ {
        Field::IsHostingProvider
    } else if name == "isBot"@ {
        Field::IsBot
    } else if name == "botName"@ {
        Field::BotName
    } else if name == "isMobile"@ {
        Field::IsMobile
    } else if name == "isTablet"@ {
        Field::IsTablet
    } else if name == "isDesktop"@ {
        Field::IsDesktop
    } else if name == "isSmartTV"@ {
        Field::IsSmartTv
    } else if name == "isGameConsole"@ {
        Field::IsGameConsole
    } else if name == "deviceName"@ {
        Field::DeviceName
    } else if name == "deviceBrand"@ {
        Field::DeviceBrand
    } else if name == "deviceModel"@ {
        Field::DeviceModel
    } else if name == "browserName"@ {
        Field::BrowserName
    } else if name == "browserVersion"@ {
        Field::BrowserVersion
    } else if name == "osName"@ {
        Field::OsName
    } else if name == "osVersion"@ {
        Field::OsVersion
    } else if name == "userAgent"@ || name == "user-agent"@ {
        Field::UserAgent
    } else if name == "referer"@ || name == "referrer"@ {
        Field::Referer
    } else if name == "accept"@ {
        Field::Accept
    } else if name == "acceptLanguage"@ || name == "accept-language"@ {
        Field::AcceptLanguage
    } else if name == "acceptEncoding"@ || name == "accept-encoding"@ {
        Field::AcceptEncoding
    } else if name == "contentType"@ || name == "content-type"@ {
        Field::ContentType
    } else if name == "cacheControl"@ || name == "cache-control"@ {
        Field::CacheControl
    } else if name == "xForwardedFor"@ || name == "x-forwarded-for"@ {
        Field::XForwardedFor
    } else if name == "xForwardedProto"@ || name == "x-forwarded-proto"@ {
        Field::XForwardedProto
    } else if name == "xRequestedWith"@ || name == "x-requested-with"@ {
        Field::XRequestedWith
    } else if name == "tlsVersion"@ || name == "tls-version"@ {
        Field::TlsVersion
    } else if name == "tlsCipher"@ || name == "tls-cipher"@ {
        Field::TlsCipher
    } else if name == "ja3"@ {
        Field::Ja3
    } else if name == "ja4"@ {
        Field::Ja4
    } else if name == "h2Fingerprint"@ || name == "h2-fingerprint"@ {
        Field::H2Fingerprint
    } else if name == "ohFingerprint"@ || name == "oh-fingerprint"@ {
        Field::OhFingerprint
    } else {
        Field::Header
    }
}

/// The attribute that a field name selects.
pub fn classify_field(name: &str) -> (r: Field)
    ensures
        r == field_of(name@),
{
    if str_eq(name, "path") {
        Field::Path
    } else if str_eq(name, "query") {
        Field::Query
    } else if str_eq(name, "method") {
        Field::Method
    } else if str_eq(name, "host") {
        Field::Host
    } else if str_eq(name, "scheme") {
        Field::Scheme
    } else if str_eq(name, "clientIp") || str_eq(name, "client-ip") || str_eq(name, "ip") {
        Field::ClientIp
    } else if str_eq(name, "asn") {
        Field::Asn
    } else if str_eq(name, "datacenter") || str_eq(name, "pop") {
        Field::Datacenter
    } else if str_eq(name, "ddosDetected") {
        Field::DdosDetected
    } else if str_eq(name, "country") {
        Field::Country
    } else if str_eq(name, "countryCode3") {
        Field::CountryCode3
    } else if str_eq(name, "continent") {
        Field::Continent
    } else if str_eq(name, "city") {
        Field::City
    } else if str_eq(name, "region") {
        Field::Region
    } else if str_eq(name, "postalCode") {
        Field::PostalCode
    } else if str_eq(name, "latitude") {
        Field::Latitude
    } else if str_eq(name, "longitude") {
        Field::Longitude
    } else if str_eq(name, "metroCode") {
        Field::MetroCode
    } else if str_eq(name, "utcOffset") {
        Field::UtcOffset
    } else if str_eq(name, "connSpeed") {
        Field::ConnSpeed
    } else if str_eq(name, "connType") {
        Field::ConnType
    } else if str_eq(name, "proxyType") {
        Field::ProxyType
    } else if str_eq(name, "proxyDescription") {
        Field::ProxyDescription
    } else if str_eq(name, "isHostingProvider") {
        Field::IsHostingProvider
    } else if str_eq(name, "isBot") {
        Field::IsBot
    } else if str_eq(name, "botName") {
        Field::BotName
    } else if str_eq(name, "isMobile") {
        Field::IsMobile
    } else if str_eq(name, "isTablet") {
        Field::IsTablet
    } else if str_eq(name, "isDesktop") {
        Field::IsDesktop
    } else if str_eq(name, "isSmartTV") {
        Field::IsSmartTv
    } else if str_eq(name, "isGameConsole") {
        Field::IsGameConsole
    } else if str_eq(name, "deviceName") {
        Field::DeviceName
    } else if str_eq(name, "deviceBrand") {
        Field::DeviceBrand
    } else if str_eq(name, "deviceModel") {
        Field::DeviceModel
    } else if str_eq(name, "browserName") {
        Field::BrowserName
    } else if str_eq(name, "browserVersion") {
        Field::BrowserVersion
    } else if str_eq(name, "osName") {
        Field::OsName
    } else if str_eq(name, "osVersion") {
        Field::OsVersion
    } else if str_eq(name, "userAgent") || str_eq(name, "user-agent") {
        Field::UserAgent
    } else if str_eq(name, "referer") || str_eq(name, "referrer") {
        Field::Referer
    } else if str_eq(name, "accept") {
        Field::Accept
    } else if str_eq(name, "acceptLanguage") || str_eq(name, "accept-language") {
        Field::AcceptLanguage
    } else if str_eq(name, "acceptEncoding") || str_eq(name, "accept-encoding") {
        Field::AcceptEncoding
    } else if str_eq(name, "contentType") || str_eq(name, "content-type") {
        Field::ContentType
    } else if str_eq(name, "cacheControl") || str_eq(name, "cache-control") {
        Field::CacheControl
    } else if str_eq(name, "xForwardedFor") || str_eq(name, "x-forwarded-for") {
        Field::XForwardedFor
    } else if str_eq(name, "xForwardedProto") || str_eq(name, "x-forwarded-proto") {
        Field::XForwardedProto
    } else if str_eq(name, "xRequestedWith") || str_eq(name, "x-requested-with") {
        Field::XRequestedWith
    } else if str_eq(name, "tlsVersion") || str_eq(name, "tls-version") {
        Field::TlsVersion
    } else if str_eq(name, "tlsCipher") || str_eq(name, "tls-cipher") {
        Field::TlsCipher
    } else if str_eq(name, "ja3") {
        Field::Ja3
    } else if str_eq(name, "ja4") {
        Field::Ja4
    } else if str_eq(name, "h2Fingerprint") || str_eq(name, "h2-fingerprint") {
        Field::H2Fingerprint
    } else if str_eq(name, "ohFingerprint") || str_eq(name, "oh-fingerprint") {
        Field::OhFingerprint
    } else {
        Field::Header
    }
}

/// The lookup that an attribute is read from.
pub open spec fn lookup_of(field: Field) -> Lookup {
    match field {
        Field::Asn
        | Field::Country
        | Field::CountryCode3
        | Field::Continent
        | Field::City
        | Field::Region
        | Field::PostalCode
        | Field::Latitude
        | Field::Longitude
        | Field::MetroCode
        | Field::UtcOffset
        | Field::ConnSpeed
        | Field::ConnType
        | Field::ProxyType
        | Field::ProxyDescription
        | Field::IsHostingProvider => Lookup::Geo,
        Field::IsBot
        | Field::BotName
        | Field::IsMobile
        | Field::IsTablet
        | Field::IsDesktop
        | Field::IsSmartTv
        | Field::IsGameConsole
        | Field::DeviceName
        | Field::DeviceBrand
        | Field::DeviceModel
        | Field::BrowserName
        | Field::BrowserVersion
        | Field::OsName
        | Field::OsVersion => Lookup::Device,
        _ => Lookup::Request,
    }
}

/// The lookup that the field of this name is read from.
pub fn field_lookup(name: &str) -> (r: Lookup)
    ensures
        r == lookup_of(field_of(name@)),
{
    match classify_field(name) {
        Field::Asn
        | Field::Country
        | Field::CountryCode3
        | Field::Continent
        | Field::City
        | Field::Region
        | Field::PostalCode
        | Field::Latitude
        | Field::Longitude
        | Field::MetroCode
        | Field::UtcOffset
        | Field::ConnSpeed
        | Field::ConnType
        | Field::ProxyType
        | Field::ProxyDescription
        | Field::IsHostingProvider => Lookup::Geo,
        Field::IsBot
        | Field::BotName
        | Field::IsMobile
        | Field::IsTablet
        | Field::IsDesktop
        | Field::IsSmartTv
        | Field::IsGameConsole
        | Field::DeviceName
        | Field::DeviceBrand
        | Field::DeviceModel
        | Field::BrowserName
        | Field::BrowserVersion
        | Field::OsName
        | Field::OsVersion => Lookup::Device,
        _ => Lookup::Request,
    }
}

// ---------------------------------------------------------------------------
// Headers
// ---------------------------------------------------------------------------

/// The value of the first header whose name is `name`, the case of ASCII
/// letters aside.
pub open spec fn header_value(headers: Seq<HeaderEntryView>, name: Seq<char>) -> Option<Seq<char>>
    decreases headers.len(),
{
    if headers.len() == 0 {
        None
    } else if same_ignoring_ascii_case(headers[0].name, name) {
        Some(headers[0].value)
    } else {
        header_value(headers.skip(1), name)
    }
}

/// The first of two optional texts that is present.
pub open spec fn or_else(a: Option<Seq<char>>, b: Option<Seq<char>>) -> Option<Seq<char>> {
    if a is Some {
        a
    } else {
        b
    }
}

/// Looks a header up by name.
pub fn header<'a>(req: &'a RequestInfo, name: &str) -> (r: Option<&'a str>)
    ensures
        opt_str(r) == header_value(req@.headers, name@),
{
    let mut i: usize = 0;
    proof {
        assert(req@.headers.skip(0) =~= req@.headers);
    }
    while i < req.headers.len()
        invariant
            i <= req.headers.len(),
            header_value(req@.headers, name@) == header_value(req@.headers.skip(i as int), name@),
        decreases req.headers.len() - i,
    {
        proof {
            let rest = req@.headers.skip(i as int);
            assert(rest[0] == req.headers@[i as int]@);
            assert(rest.skip(1) =~= req@.headers.skip(i + 1));
        }
        if str_eq_ignore_ascii_case(req.headers[i].name.as_str(), name) {
            return Some(req.headers[i].value.as_str());
        }
        i += 1;
    }
    None
}

/// Looks up the first of two headers that is present.
pub fn header_or<'a>(req: &'a RequestInfo, first: &str, second: &str) -> (r: Option<&'a str>)
    ensures
        opt_str(r) == or_else(
            header_value(req@.headers, first@),
            header_value(req@.headers, second@),
        ),
{
    match header(req, first) {
        Some(v) => Some(v),
        None => header(req, second),
    }
}

fn owned(o: Option<&str>) -> (r: Option<String>)
    ensures
        opt_text(r) == opt_str(o),
{
    match o {
        Some(s) => Some(copy_string(s)),
        None => None,
    }
}

fn owned_opt(o: &Option<String>) -> (r: Option<String>)
    ensures
        opt_text(r) == opt_text(*o),
{
    match o {
        Some(s) => Some(s.clone()),
        None => None,
    }
}

// ---------------------------------------------------------------------------
// Derived texts
// ---------------------------------------------------------------------------

/// The query string of a URL: what follows the first `?`, the `?` included.
pub open spec fn query_of(url: Seq<char>) -> Option<Seq<char>> {
    let i = first_break(url, '?');
    if i < url.len() {
        Some(url.skip(i as int))
    } else {
        None
    }
}

/// The leftmost entry of a comma-separated list of forwarded addresses,
/// without the whitespace around it.
pub open spec fn first_forwarded(list: Seq<char>) -> Seq<char> {
    trimmed(list.take(first_break(list, ',') as int))
}

/// `true` or `false`, as text.
pub open spec fn bool_text(b: bool) -> Seq<char> {
    if b {
        "true"@
    } else {
        "false"@
    }
}

/// The decimal numeral of an integer, with `-` before a negative one.
pub open spec fn signed_decimal(i: int) -> Seq<char> {
    if i < 0 {
        seq!['-'] + decimal((-i) as nat)
    } else {
        decimal(i as nat)
    }
}

/// The decimal numeral of a number, with a leading zero below ten.
pub open spec fn two_digits(n: nat) -> Seq<char> {
    if n < 10 {
        seq!['0'] + decimal(n)
    } else {
        decimal(n)
    }
}

/// An offset from UTC as text: the hours, and after a colon the minutes where
/// they are not zero.
pub open spec fn utc_offset_text(o: UtcOffsetView) -> Seq<char> {
    if o.minutes == 0 {
        signed_decimal(o.hours as int)
    } else {
        let m: int = if o.minutes < 0 {
            -(o.minutes as int)
        } else {
            o.minutes as int
        };
        signed_decimal(o.hours as int) + seq![':'] + two_digits(m as nat)
    }
}

/// A version as text: major and minor part with a dot between them, and `0`
/// as the minor part where it is not known.
pub open spec fn version_text(
    major: Option<Seq<char>>,
    minor: Option<Seq<char>>,
) -> Option<Seq<char>> {
    match major {
        Some(m) => Some(
            m + seq!['.'] + (match minor {
                Some(n) => n,
                None => "0"@,
            }),
        ),
        None => None,
    }
}

/// A device flag as text; `false` where the flag or the device is not known.
pub open spec fn flag_text(flag: Option<bool>) -> Option<Seq<char>> {
    match flag {
        Some(b) => Some(bool_text(b)),
        None => Some("false"@),
    }
}

fn bool_string(b: bool) -> (r: String)
    ensures
        r@ == bool_text(b),
{
    if b {
        copy_string("true")
    } else {
        copy_string("false")
    }
}

fn flag_string(flag: Option<bool>) -> (r: Option<String>)
    ensures
        opt_text(r) == flag_text(flag),
{
    match flag {
        Some(b) => Some(bool_string(b)),
        None => Some(copy_string("false")),
    }
}

fn query_string(url: &str) -> (r: Option<String>)
    ensures
        opt_text(r) == query_of(url@),
{
    let chars = chars_of(url);
    let i = find_break(&chars, 0, '?');
    proof {
        assert(chars@.skip(0) =~= chars@);
    }
    if i < chars.len() {
        let tail = slice_of(&chars, i, chars.len());
        proof {
            assert(chars@.subrange(i as int, chars@.len() as int) =~= chars@.skip(i as int));
        }
        Some(string_from_chars(&tail))
    } else {
        None
    }
}

fn first_forwarded_string(list: &str) -> (r: String)
    ensures
        r@ == first_forwarded(list@),
{
    let chars = chars_of(list);
    let end = find_break(&chars, 0, ',');
    proof {
        assert(chars@.skip(0) =~= chars@);
        assert(chars@.subrange(0, end as int) =~= chars@.take(end as int));
    }
    let bounds = trim_range(&chars, 0, end);
    let part = slice_of(&chars, bounds.0, bounds.1);
    string_from_chars(&part)
}

fn push_signed(out: &mut Vec<char>, i: i8)
    ensures
        final(out)@ == old(out)@ + signed_decimal(i as int),
{
    if i < 0 {
        out.push('-');
        let ghost mid = out@;
        let magnitude: i16 = -(i as i16);
        push_decimal(out, magnitude as u128);
        proof {
            assert(out@ =~= old(out)@ + (seq!['-'] + decimal((-(i as int)) as nat)));
        }
    } else {
        push_decimal(out, i as u128);
    }
}

fn utc_offset_string(o: &UtcOffset) -> (r: String)
    ensures
        r@ == utc_offset_text(o@),
{
    let mut out: Vec<char> = Vec::new();
    push_signed(&mut out, o.hours);
    if o.minutes != 0 {
        out.push(':');
        let m: i16 = if o.minutes < 0 {
            -(o.minutes as i16)
        } else {
            o.minutes as i16
        };
        if m < 10 {
            out.push('0');
        }
        push_decimal(&mut out, m as u128);
    }
    proof {
        assert(out@ =~= utc_offset_text(o@));
    }
    string_from_chars(&out)
}

fn version_string(major: &Option<String>, minor: &Option<String>) -> (r: Option<String>)
    ensures
        opt_text(r) == version_text(opt_text(*major), opt_text(*minor)),
{
    match major {
        Some(m) => {
            let mut out: Vec<char> = Vec::new();
            push_str(&mut out, m.as_str());
            out.push('.');
            match minor {
                Some(n) => push_str(&mut out, n.as_str()),
                None => push_str(&mut out, "0"),
            }
            proof {
                assert(out@ =~= version_text(opt_text(*major), opt_text(*minor))->0);
            }
            Some(string_from_chars(&out))
        },
        None => None,
    }
}

/// Whether a proxy description names a hosting provider.
pub open spec fn names_hosting(description: Seq<char>) -> bool {
    has_substring(lowercase(description), "hosting"@)
}

fn is_hosting(description: &str) -> (r: bool)
    ensures
        r == names_hosting(description@),
{
    let lower = to_lowercase(description);
    let hay = chars_of(lower.as_str());
    let needle = chars_of("hosting");
    crate::text::contains(&hay, &needle)
}

// ---------------------------------------------------------------------------
// The resolver
// ---------------------------------------------------------------------------

/// The client's address: what the platform reports, else the header that
/// carries the client address, else the leftmost forwarded address.
pub open spec fn client_ip_text(req: RequestInfoView) -> Option<Seq<char>> {
    or_else(
        req.client_ip,
        or_else(
            header_value(req.headers, "fastly-client-ip"@),
            match header_value(req.headers, "x-forwarded-for"@) {
                Some(list) => Some(first_forwarded(list)),
                None => None,
            },
        ),
    )
}

/// The value of the field named `name`.
///
/// `geo` and `device` are the results of the two lookups; `None` stands for a
/// lookup that found nothing. A name that is none of the known ones selects
/// the header of that name.
pub open spec fn field_value(
    name: Seq<char>,
    req: RequestInfoView,
    geo: Option<GeoInfoView>,
    device: Option<DeviceInfoView>,
) -> Option<Seq<char>> {
    match field_of(name) {
        Field::Path => Some(req.path),
        Field::Query => query_of(req.url),
        Field::Method => Some(req.method),
        Field::Host => or_else(
            header_value(req.headers, "host"@),
            header_value(req.headers, "fastly-orig-host"@),
        ),
        Field::Scheme => or_else(header_value(req.headers, "x-forwarded-proto"@), Some("https"@)),
        Field::ClientIp => client_ip_text(req),
        Field::Asn => match geo {
            Some(g) => Some(g.as_number),
            None => header_value(req.headers, "fastly-client-geo-asn"@),
        },
        Field::Datacenter => or_else(header_value(req.headers, "fastly-pop"@), req.pop),
        Field::DdosDetected => match req.ddos_detected {
            Some(b) => Some(bool_text(b)),
            None => None,
        },
        Field::Country => match geo {
            Some(g) => Some(g.country_code),
            None => header_value(req.headers, "fastly-client-geo-country"@),
        },
        Field::CountryCode3 => match geo {
            Some(g) => Some(g.country_code3),
            None => None,
        },
        Field::Continent => match geo {
            Some(g) => Some(g.continent),
            None => header_value(req.headers, "fastly-client-geo-continent"@),
        },
        Field::City => match geo {
            Some(g) => Some(g.city),
            None => header_value(req.headers, "fastly-client-geo-city"@),
        },
        Field::Region => match geo {
            Some(g) => g.region,
            None => None,
        },
        Field::PostalCode => match geo {
            Some(g) => Some(g.postal_code),
            None => None,
        },
        Field::Latitude => match geo {
            Some(g) => Some(g.latitude),
            None => None,
        },
        Field::Longitude => match geo {
            Some(g) => Some(g.longitude),
            None => None,
        },
        Field::MetroCode => match geo {
            Some(g) => Some(g.metro_code),
            None => None,
        },
        Field::UtcOffset => match geo {
            Some(g) => match g.utc_offset {
                Some(o) => Some(utc_offset_text(o)),
                None => None,
            },
            None => None,
        },
        Field::ConnSpeed => match geo {
            Some(g) => Some(g.conn_speed),
            None => None,
        },
        Field::ConnType => match geo {
            Some(g) => Some(g.conn_type),
            None => None,
        },
        Field::ProxyType => match geo {
            Some(g) => Some(g.proxy_type),
            None => None,
        },
        Field::ProxyDescription => match geo {
            Some(g) => Some(g.proxy_description),
            None => None,
        },
        Field::IsHostingProvider => match geo {
            Some(g) => Some(bool_text(names_hosting(g.proxy_description))),
            None => Some("false"@),
        },
        Field::IsBot => match device {
            Some(d) => flag_text(d.is_bot),
            None => Some("false"@),
        },
        Field::BotName => match device {
            Some(d) => if d.is_bot == Some(true) {
                d.device_name
            } else {
                None
            },
            None => None,
        },
        Field::IsMobile => match device {
            Some(d) => flag_text(d.is_mobile),
            None => Some("false"@),
        },
        Field::IsTablet => match device {
            Some(d) => flag_text(d.is_tablet),
            None => Some("false"@),
        },
        Field::IsDesktop => match device {
            Some(d) => flag_text(d.is_desktop),
            None => Some("false"@),
        },
        Field::IsSmartTv => match device {
            Some(d) => flag_text(d.is_smarttv),
            None => Some("false"@),
        },
        Field::IsGameConsole => match device {
            Some(d) => flag_text(d.is_gameconsole),
            None => Some("false"@),
        },
        Field::DeviceName => match device {
            Some(d) => d.device_name,
            None => None,
        },
        Field::DeviceBrand => match device {
            Some(d) => d.brand,
            None => None,
        },
        Field::DeviceModel => match device {
            Some(d) => d.model,
            None => None,
        },
        Field::BrowserName => match device {
            Some(d) => d.user_agent_name,
            None => None,
        },
        Field::BrowserVersion => match device {
            Some(d) => version_text(d.user_agent_major_version, d.user_agent_minor_version),
            None => None,
        },
        Field::OsName => match device {
            Some(d) => d.os_name,
            None => None,
        },
        Field::OsVersion => match device {
            Some(d) => version_text(d.os_major_version, d.os_minor_version),
            None => None,
        },
        Field::UserAgent => header_value(req.headers, "user-agent"@),
        Field::Referer => header_value(req.headers, "referer"@),
        Field::Accept => header_value(req.headers, "accept"@),
        Field::AcceptLanguage => header_value(req.headers, "accept-language"@),
        Field::AcceptEncoding => header_value(req.headers, "accept-encoding"@),
        Field::ContentType => header_value(req.headers, "content-type"@),
        Field::CacheControl => header_value(req.headers, "cache-control"@),
        Field::XForwardedFor => header_value(req.headers, "x-forwarded-for"@),
        Field::XForwardedProto => header_value(req.headers, "x-forwarded-proto"@),
        Field::XRequestedWith => header_value(req.headers, "x-requested-with"@),
        Field::TlsVersion => or_else(
            header_value(req.headers, "fastly-ssl-protocol"@),
            header_value(req.headers, "tls-client-protocol"@),
        ),
        Field::TlsCipher => or_else(
            header_value(req.headers, "fastly-ssl-cipher"@),
            header_value(req.headers, "tls-client-cipher"@),
        ),
        Field::Ja3 => or_else(
            header_value(req.headers, "fastly-client-ja3-md5"@),
            header_value(req.headers, "tls-ja3-md5"@),
        ),
        Field::Ja4 => or_else(
            header_value(req.headers, "fastly-client-ja4"@),
            header_value(req.headers, "tls-ja4"@),
        ),
        Field::H2Fingerprint => header_value(req.headers, "fastly-client-h2-fingerprint"@),
        Field::OhFingerprint => header_value(req.headers, "fastly-client-oh-fingerprint"@),
        Field::Header => header_value(req.headers, name),
    }
}

pub(crate) fn client_ip(req: &RequestInfo) -> (r: Option<String>)
    ensures
        opt_text(r) == client_ip_text(req@),
{
    match &req.client_ip {
        Some(ip) => Some(ip.clone()),
        None => match header(req, "fastly-client-ip") {
            Some(ip) => Some(copy_string(ip)),
            None => match header(req, "x-forwarded-for") {
                Some(list) => Some(first_forwarded_string(list)),
                None => None,
            },
        },
    }
}

/// Resolves the field named `name` for a request.
///
/// `geo` and `device` are the results of the two lookups, `None` where a
/// lookup found nothing; a field that needs neither ignores them. The result
/// is `None` where the request has no value for the field.
pub fn get_field_value(
    name: &str,
    req: &RequestInfo,
    geo: Option<&GeoInfo>,
    device: Option<&DeviceInfo>,
) -> (r: Option<String>)
    ensures
        opt_text(r) == field_value(name@, req@, opt_geo(geo), opt_device(device)),
{
    match classify_field(name) {
        Field::Path => Some(req.path.clone()),
        Field::Query => query_string(req.url.as_str()),
        Field::Method => Some(req.method.clone()),
        Field::Host => owned(header_or(req, "host", "fastly-orig-host")),
        Field::Scheme => match header(req, "x-forwarded-proto") {
            Some(v) => Some(copy_string(v)),
            None => Some(copy_string("https")),
        },
        Field::ClientIp => client_ip(req),
        Field::Asn => match geo {
            Some(g) => Some(g.as_number.clone()),
            None => owned(header(req, "fastly-client-geo-asn")),
        },
        Field::Datacenter => match header(req, "fastly-pop") {
            Some(v) => Some(copy_string(v)),
            None => owned_opt(&req.pop),
        },
        Field::DdosDetected => match req.ddos_detected {
            Some(b) => Some(bool_string(b)),
            None => None,
        },
        Field::Country => match geo {
            Some(g) => Some(g.country_code.clone()),
            None => owned(header(req, "fastly-client-geo-country")),
        },
        Field::CountryCode3 => match geo {
            Some(g) => Some(g.country_code3.clone()),
            None => None,
        },
        Field::Continent => match geo {
            Some(g) => Some(g.continent.clone()),
            None => owned(header(req, "fastly-client-geo-continent")),
        },
        Field::City => match geo {
            Some(g) => Some(g.city.clone()),
            None => owned(header(req, "fastly-client-geo-city")),
        },
        Field::Region => match geo {
            Some(g) => owned_opt(&g.region),
            None => None,
        },
        Field::PostalCode => match geo {
            Some(g) => Some(g.postal_code.clone()),
            None => None,
        },
        Field::Latitude => match geo {
            Some(g) => Some(g.latitude.clone()),
            None => None,
        },
        Field::Longitude => match geo {
            Some(g) => Some(g.longitude.clone()),
            None => None,
        },
        Field::MetroCode => match geo {
            Some(g) => Some(g.metro_code.clone()),
            None => None,
        },
        Field::UtcOffset => match geo {
            Some(g) => match &g.utc_offset {
                Some(o) => Some(utc_offset_string(o)),
                None => None,
            },
            None => None,
        },
        Field::ConnSpeed => match geo {
            Some(g) => Some(g.conn_speed.clone()),
            None => None,
        },
        Field::ConnType => match geo {
            Some(g) => Some(g.conn_type.clone()),
            None => None,
        },
        Field::ProxyType => match geo {
            Some(g) => Some(g.proxy_type.clone()),
            None => None,
        },
        Field::ProxyDescription => match geo {
            Some(g) => Some(g.proxy_description.clone()),
            None => None,
        },
        Field::IsHostingProvider => match geo {
            Some(g) => Some(bool_string(is_hosting(g.proxy_description.as_str()))),
            None => Some(copy_string("false")),
        },
        Field::IsBot => match device {
            Some(d) => flag_string(d.is_bot),
            None => Some(copy_string("false")),
        },
        Field::BotName => match device {
            Some(d) => match d.is_bot {
                Some(true) => owned_opt(&d.device_name),
                _ => None,
            },
            None => None,
        },
        Field::IsMobile => match device {
            Some(d) => flag_string(d.is_mobile),
            None => Some(copy_string("false")),
        },
        Field::IsTablet => match device {
            Some(d) => flag_string(d.is_tablet),
            None => Some(copy_string("false")),
        },
        Field::IsDesktop => match device {
            Some(d) => flag_string(d.is_desktop),
            None => Some(copy_string("false")),
        },
        Field::IsSmartTv => match device {
            Some(d) => flag_string(d.is_smarttv),
            None => Some(copy_string("false")),
        },
        Field::IsGameConsole => match device {
            Some(d) => flag_string(d.is_gameconsole),
            None => Some(copy_string("false")),
        },
        Field::DeviceName => match device {
            Some(d) => owned_opt(&d.device_name),
            None => None,
        },
        Field::DeviceBrand => match device {
            Some(d) => owned_opt(&d.brand),
            None => None,
        },
        Field::DeviceModel => match device {
            Some(d) => owned_opt(&d.model),
            None => None,
        },
        Field::BrowserName => match device {
            Some(d) => owned_opt(&d.user_agent_name),
            None => None,
        },
        Field::BrowserVersion => match device {
            Some(d) => version_string(&d.user_agent_major_version, &d.user_agent_minor_version),
            None => None,
        },
        Field::OsName => match device {
            Some(d) => owned_opt(&d.os_name),
            None => None,
        },
        Field::OsVersion => match device {
            Some(d) => version_string(&d.os_major_version, &d.os_minor_version),
            None => None,
        },
        Field::UserAgent => owned(header(req, "user-agent")),
        Field::Referer => owned(header(req, "referer")),
        Field::Accept => owned(header(req, "accept")),
        Field::AcceptLanguage => owned(header(req, "accept-language")),
        Field::AcceptEncoding => owned(header(req, "accept-encoding")),
        Field::ContentType => owned(header(req, "content-type")),
        Field::CacheControl => owned(header(req, "cache-control")),
        Field::XForwardedFor => owned(header(req, "x-forwarded-for")),
        Field::XForwardedProto => owned(header(req, "x-forwarded-proto")),
        Field::XRequestedWith => owned(header(req, "x-requested-with")),
        Field::TlsVersion => owned(header_or(req, "fastly-ssl-protocol", "tls-client-protocol")),
        Field::TlsCipher => owned(header_or(req, "fastly-ssl-cipher", "tls-client-cipher")),
        Field::Ja3 => owned(header_or(req, "fastly-client-ja3-md5", "tls-ja3-md5")),
        Field::Ja4 => owned(header_or(req, "fastly-client-ja4", "tls-ja4")),
        Field::H2Fingerprint => owned(header(req, "fastly-client-h2-fingerprint")),
        Field::OhFingerprint => owned(header(req, "fastly-client-oh-fingerprint")),
        Field::Header => owned(header(req, name)),
    }
}

} // verus!
