//! Saved upstream proxies and the table that holds them.

use vstd::prelude::*;
use vstd::string::StringExecFns;
use crate::codec::{json_text_at, json_texts, json_valid, lossy_text, text_view, text_of};
use crate::proxy::proxy_server::{protocol_kind, UpstreamKind, DEFAULT_SOCKS_PORT};
use crate::proxy_manager::{check_pointers, proxy_url, proxy_url_text, reported_country, reported_ip};
use crate::text::{
    chars_of, decimal_u16, find_char, parse_u16, position_of, same_text, text_or,
};
use vstd::string::StrSliceExecFns;

verus! {

/// The browser language settings that go with a country.
#[derive(Clone, Copy, Debug)]
pub struct LanguageSettings {
    /// The value of the browser's `--lang` switch.
    pub lang: &'static str,
    /// The value of the browser's `--accept-lang` switch.
    pub accept_language: &'static str,
}

/// The countries for which language settings are known.
pub open spec fn known_country(country: Seq<char>) -> bool {
    country == "US"@ || country == "IT"@ || country == "FR"@
}

/// The `--lang` value of a known country.
pub open spec fn country_lang(country: Seq<char>) -> Seq<char> {
    if country == "US"@ {
        "en-US"@
    } else if country == "IT"@ {
        "it-IT"@
    } else {
        "fr-FR"@
    }
}

/// The `--accept-lang` value of a known country.
pub open spec fn country_accept_language(country: Seq<char>) -> Seq<char> {
    if country == "US"@ {
        "en-US,en;q=0.9"@
    } else if country == "IT"@ {
        "it-IT,it;q=0.9"@
    } else {
        "fr-FR,fr;q=0.9"@
    }
}

/// The language settings of a country, where they are known.
pub fn get_language_settings(country: &str) -> (r: Option<LanguageSettings>)
    ensures
        r is Some <==> known_country(country@),
        r matches Some(s) ==> s.lang@ == country_lang(country@) && s.accept_language@
            == country_accept_language(country@),
{
    let code = chars_of(country);
    if same_text(&code, &chars_of("US")) {
        Some(LanguageSettings { lang: "en-US", accept_language: "en-US,en;q=0.9" })
    } else if same_text(&code, &chars_of("IT")) {
        Some(LanguageSettings { lang: "it-IT", accept_language: "it-IT,it;q=0.9" })
    } else if same_text(&code, &chars_of("FR")) {
        Some(LanguageSettings { lang: "fr-FR", accept_language: "fr-FR,fr;q=0.9" })
    } else {
        None
    }
}

/// One saved upstream proxy.
#[derive(Debug)]
pub struct ProxyConfig {
    /// The record's number in its table; 0 for a record that is in none.
    pub id: u32,
    pub name: String,
    /// `http` or `socks5`.
    pub protocol: String,
    pub host: String,
    pub port: String,
    pub username: String,
    pub password: String,
    /// The country that the proxy's exit address was last seen in.
    pub country: String,
    /// The proxy's exit address, as last seen.
    pub ip: String,
    pub lang: String,
    pub accept_lang: String,
}

/// The table of saved proxies.
#[derive(Debug)]
pub struct ProxyManager {
    pub proxies: Vec<ProxyConfig>,
}

/// The largest id among the records, 0 if there is none.
pub open spec fn max_id(proxies: Seq<ProxyConfig>) -> nat
    decreases proxies.len(),
{
    if proxies.len() == 0 {
        0
    } else {
        let rest = max_id(proxies.drop_last());
        if proxies.last().id > rest {
            proxies.last().id as nat
        } else {
            rest
        }
    }
}

/// The position of the first record at or after `from` with the given id;
/// the number of records if there is none.
pub open spec fn position_of_id(proxies: Seq<ProxyConfig>, id: u32, from: int) -> int
    decreases proxies.len() - from,
{
    if from < 0 || from >= proxies.len() {
        proxies.len() as int
    } else if proxies[from].id == id {
        from
    } else {
        position_of_id(proxies, id, from + 1)
    }
}

/// No record has an id above `max_id`.
pub proof fn max_id_bounds(proxies: Seq<ProxyConfig>, i: int)
    requires
        0 <= i < proxies.len(),
    ensures
        proxies[i].id <= max_id(proxies),
    decreases proxies.len(),
{
    if i < proxies.len() - 1 {
        max_id_bounds(proxies.drop_last(), i);
    }
}

impl Clone for ProxyConfig {
    fn clone(&self) -> (r: Self)
        ensures
            r == *self,
    {
        ProxyConfig {
            id: self.id,
            name: self.name.clone(),
            protocol: self.protocol.clone(),
            host: self.host.clone(),
            port: self.port.clone(),
            username: self.username.clone(),
            password: self.password.clone(),
            country: self.country.clone(),
            ip: self.ip.clone(),
            lang: self.lang.clone(),
            accept_lang: self.accept_lang.clone(),
        }
    }
}

impl ProxyConfig {
    /// The record was never checked: it holds no country, address or
    /// language.
    pub open spec fn unchecked(&self) -> bool {
        &&& self.country@ == Seq::<char>::empty()
        &&& self.ip@ == Seq::<char>::empty()
        &&& self.lang@ == Seq::<char>::empty()
        &&& self.accept_lang@ == Seq::<char>::empty()
    }

    /// The record holds nothing at all.
    pub open spec fn blank(&self) -> bool {
        &&& self.id == 0
        &&& self.name@ == Seq::<char>::empty()
        &&& self.protocol@ == Seq::<char>::empty()
        &&& self.host@ == Seq::<char>::empty()
        &&& self.port@ == Seq::<char>::empty()
        &&& self.username@ == Seq::<char>::empty()
        &&& self.password@ == Seq::<char>::empty()
        &&& self.unchecked()
    }

    /// Both records hold the same values.
    pub open spec fn same(&self, other: &ProxyConfig) -> bool {
        &&& self.id == other.id
        &&& self.name@ == other.name@
        &&& self.protocol@ == other.protocol@
        &&& self.host@ == other.host@
        &&& self.port@ == other.port@
        &&& self.username@ == other.username@
        &&& self.password@ == other.password@
        &&& self.country@ == other.country@
        &&& self.ip@ == other.ip@
        &&& self.lang@ == other.lang@
        &&& self.accept_lang@ == other.accept_lang@
    }

    /// An empty record.
    pub fn default() -> (r: Self)
        ensures
            r.blank(),
    {
        ProxyConfig {
            id: 0,
            name: String::new(),
            protocol: String::new(),
            host: String::new(),
            port: String::new(),
            username: String::new(),
            password: String::new(),
            country: String::new(),
            ip: String::new(),
            lang: String::new(),
            accept_lang: String::new(),
        }
    }

    /// A new, unchecked record for the table `proxies`: its id is one above
    /// the largest in the table.
    pub fn new_proxy(
        proxies: Vec<ProxyConfig>,
        name: String,
        protocol: String,
        host: String,
        port: String,
        username: String,
        password: String,
    ) -> (r: Self)
        requires
            max_id(proxies@) < u32::MAX,
        ensures
            r.id == max_id(proxies@) + 1,
            r.name == name,
            r.protocol == protocol,
            r.host == host,
            r.port == port,
            r.username == username,
            r.password == password,
            r.unchecked(),
    {
        ProxyConfig {
            id: Self::get_next_id(proxies),
            name,
            protocol,
            host,
            port,
            username,
            password,
            country: String::new(),
            ip: String::new(),
            lang: String::new(),
            accept_lang: String::new(),
        }
    }

    /// The id for the next record of a table.
    pub fn get_next_id(proxies: Vec<ProxyConfig>) -> (id: u32)
        requires
            max_id(proxies@) < u32::MAX,
        ensures
            id == max_id(proxies@) + 1,
    {
        largest_id(&proxies) + 1
    }

    /// Whether two records hold the same values.
    pub fn same_as(&self, other: &ProxyConfig) -> (r: bool)
        ensures
            r == self.same(other),
    {
        self.id == other.id && self.name == other.name && self.protocol == other.protocol
            && self.host == other.host && self.port == other.port && self.username
            == other.username && self.password == other.password && self.country == other.country
            && self.ip == other.ip && self.lang == other.lang && self.accept_lang
            == other.accept_lang
    }
}

/// The largest id in a table.
pub fn largest_id(proxies: &Vec<ProxyConfig>) -> (id: u32)
    ensures
        id == max_id(proxies@),
{
    let mut largest: u32 = 0;
    let mut i: usize = 0;
    while i < proxies.len()
        invariant
            i <= proxies.len(),
            largest == max_id(proxies@.take(i as int)),
        decreases proxies.len() - i,
    {
        assert(proxies@.take(i + 1).drop_last() =~= proxies@.take(i as int));
        if proxies[i].id > largest {
            largest = proxies[i].id;
        }
        i += 1;
    }
    assert(proxies@.take(i as int) =~= proxies@);
    largest
}

impl ProxyManager {
    /// A table without records.
    pub fn new() -> (r: Self)
        ensures
            r.proxies@.len() == 0,
    {
        ProxyManager { proxies: Vec::new() }
    }

    /// Whether a record can still be added: the ids have not run out.
    pub fn has_room(&self) -> (r: bool)
        ensures
            r == (max_id(self.proxies@) < u32::MAX),
    {
        largest_id(&self.proxies) < u32::MAX
    }

    /// Appends a new, unchecked record with the next id.
    pub fn add_new_proxy(
        &mut self,
        name: String,
        protocol: String,
        host: String,
        port: String,
        username: String,
        password: String,
    )
        requires
            max_id(old(self).proxies@) < u32::MAX,
        ensures
            final(self).proxies@.len() == old(self).proxies@.len() + 1,
            final(self).proxies@.drop_last() == old(self).proxies@,
            final(self).proxies@.last().id == max_id(old(self).proxies@) + 1,
            final(self).proxies@.last().name == name,
            final(self).proxies@.last().protocol == protocol,
            final(self).proxies@.last().host == host,
            final(self).proxies@.last().port == port,
            final(self).proxies@.last().username == username,
            final(self).proxies@.last().password == password,
            final(self).proxies@.last().unchecked(),
    {
        let id = largest_id(&self.proxies) + 1;
        let new_proxy = ProxyConfig {
            id,
            name,
            protocol,
            host,
            port,
            username,
            password,
            country: String::new(),
            ip: String::new(),
            lang: String::new(),
            accept_lang: String::new(),
        };
        self.proxies.push(new_proxy);
        assert(self.proxies@.drop_last() =~= old(self).proxies@);
    }

    /// Replaces the first record whose id is `index`; tells whether there
    /// was one. Without one the table stays as it is.
    pub fn update(&mut self, index: u32, updated_proxy: ProxyConfig) -> (found: bool)
        ensures
            found == (position_of_id(old(self).proxies@, index, 0) < old(self).proxies@.len()),
            found ==> final(self).proxies@ == old(self).proxies@.update(
                position_of_id(old(self).proxies@, index, 0),
                updated_proxy,
            ),
            !found ==> final(self).proxies@ == old(self).proxies@,
    {
        let mut i: usize = 0;
        while i < self.proxies.len()
            invariant
                i <= self.proxies.len(),
                self.proxies@ == old(self).proxies@,
                position_of_id(self.proxies@, index, 0) == position_of_id(
                    self.proxies@,
                    index,
                    i as int,
                ),
            decreases self.proxies.len() - i,
        {
            if self.proxies[i].id == index {
                self.proxies.set(i, updated_proxy);
                return true;
            }
            i += 1;
        }
        false
    }

    /// Removes the record at position `index`; tells whether there was one.
    pub fn remove_proxy(&mut self, index: usize) -> (removed: bool)
        ensures
            removed == (index < old(self).proxies@.len()),
            removed ==> final(self).proxies@ == old(self).proxies@.remove(index as int),
            !removed ==> final(self).proxies@ == old(self).proxies@,
    {
        if index < self.proxies.len() {
            self.proxies.remove(index);
            true
        } else {
            false
        }
    }
}

/// A new record's id is in use by no record of the table it was made for.
pub proof fn next_id_is_fresh(proxies: Seq<ProxyConfig>, i: int)
    requires
        0 <= i < proxies.len(),
    ensures
        proxies[i].id != max_id(proxies) + 1,
{
    max_id_bounds(proxies, i);
}

/// Why a check of a proxy gave nothing.
#[derive(Clone, Copy, Debug, PartialEq, Eq, Structural)]
pub enum CheckError {
    /// The proxy's protocol is neither `http` nor `socks5`.
    UnsupportedProtocol,
    /// The answer of the address service holds no JSON document.
    Unparseable,
}

/// How a proxy is checked: by asking the address service through it.
#[derive(Debug)]
pub enum CheckPlan {
    /// Ask over HTTPS with the proxy named by `proxy_url`.
    Http { proxy_url: String },
    /// Open a SOCKS5 tunnel with username and password to the address
    /// service, speak TLS in it, send `check_request` and read to the end.
    Socks5 { proxy_host: String, proxy_port: u16, username: String, password: String },
}

/// The mathematical content of a `CheckPlan`.
pub enum CheckPlanView {
    Http { proxy_url: Seq<char> },
    Socks5 { proxy_host: Seq<char>, proxy_port: u16, username: Seq<char>, password: Seq<char> },
}

impl View for CheckPlan {
    type V = CheckPlanView;

    open spec fn view(&self) -> CheckPlanView {
        match self {
            CheckPlan::Http { proxy_url } => CheckPlanView::Http { proxy_url: proxy_url@ },
            CheckPlan::Socks5 {
                proxy_host,
                proxy_port,
                username,
                password,
            } => CheckPlanView::Socks5 {
                proxy_host: proxy_host@,
                proxy_port: *proxy_port,
                username: username@,
                password: password@,
            },
        }
    }
}

/// A check may take this many seconds.
pub const CHECK_TIMEOUT_SECONDS: u64 = 10;

/// The port of the address service.
pub const ADDRESS_SERVICE_PORT: u16 = 443;

/// The host of the address service.
pub fn address_service_host() -> (r: &'static str)
    ensures
        r@ == "ipinfo.io"@,
{
    "ipinfo.io"
}

/// The URL of the address service.
pub fn address_service_url() -> (r: &'static str)
    ensures
        r@ == "https://ipinfo.io/json"@,
{
    "https://ipinfo.io/json"
}

/// The request that asks the address service inside a tunnel.
pub fn check_request() -> (r: &'static str)
    ensures
        r@ == "GET /json HTTP/1.1\r\nHost: ipinfo.io\r\nConnection: close\r\n\r\n"@,
{
    "GET /json HTTP/1.1\r\nHost: ipinfo.io\r\nConnection: close\r\n\r\n"
}

/// How a proxy of the given record is checked.
pub open spec fn plan_of(proxy: ProxyConfig) -> Result<CheckPlanView, CheckError> {
    match protocol_kind(proxy.protocol@) {
        Some(UpstreamKind::Http) => Ok(
            CheckPlanView::Http {
                proxy_url: proxy_url_text(
                    proxy.protocol@,
                    proxy.username@,
                    proxy.password@,
                    proxy.host@,
                    proxy.port@,
                ),
            },
        ),
        Some(UpstreamKind::Socks5) => Ok(
            CheckPlanView::Socks5 {
                proxy_host: proxy.host@,
                proxy_port: match decimal_u16(proxy.port@) {
                    Some(port) => port,
                    None => DEFAULT_SOCKS_PORT,
                },
                username: proxy.username@,
                password: proxy.password@,
            },
        ),
        None => Err(CheckError::UnsupportedProtocol),
    }
}

/// The view of a plan that may have failed.
pub open spec fn plan_view(r: Result<CheckPlan, CheckError>) -> Result<CheckPlanView, CheckError> {
    match r {
        Ok(plan) => Ok(plan@),
        Err(e) => Err(e),
    }
}

/// The part of an answer that holds the JSON document: from the first
/// opening brace on, and all of it where there is none.
pub open spec fn json_part_text(response: Seq<char>) -> Seq<char> {
    let start = position_of(response, '{', 0);
    if start < response.len() {
        response.skip(start)
    } else {
        response
    }
}

/// The part of an answer that holds the JSON document.
pub fn json_part(response: &str) -> (r: String)
    ensures
        r@ == json_part_text(response@),
{
    let chars = chars_of(response);
    let start = find_char(&chars, '{', 0);
    if start < chars.len() {
        let part = response.substring_char(start, chars.len());
        assert(part@ =~= response@.skip(start as int));
        String::from_str(part)
    } else {
        String::from_str(response)
    }
}

impl ProxyConfig {
    /// The record holds what a check found: the address and the country,
    /// and the country's language settings where the country is known.
    pub open spec fn checked_from(
        &self,
        before: &ProxyConfig,
        ip: Option<Seq<char>>,
        country: Option<Seq<char>>,
    ) -> bool {
        &&& self.id == before.id
        &&& self.name == before.name
        &&& self.protocol == before.protocol
        &&& self.host == before.host
        &&& self.port == before.port
        &&& self.username == before.username
        &&& self.password == before.password
        &&& self.ip@ == reported_ip(ip)
        &&& self.country@ == reported_country(country)
        &&& self.lang@ == if known_country(reported_country(country)) {
            country_lang(reported_country(country))
        } else {
            before.lang@
        }
        &&& self.accept_lang@ == if known_country(reported_country(country)) {
            country_accept_language(reported_country(country))
        } else {
            before.accept_lang@
        }
    }

    /// Records what a check found.
    pub fn with_check(self, ip: Option<String>, country: Option<String>) -> (r: Self)
        ensures
            r.checked_from(&self, text_view(ip), text_view(country)),
    {
        let ip = text_or(ip, "Unknown IP");
        let country = text_or(country, "Unknown Country");
        let mut checked = self;
        match get_language_settings(country.as_str()) {
            Some(settings) => {
                checked.lang = String::from_str(settings.lang);
                checked.accept_lang = String::from_str(settings.accept_language);
            },
            None => {},
        }
        checked.ip = ip;
        checked.country = country;
        checked
    }

    /// Reads the address service's answer, a JSON document, and records
    /// what it reports. A text that is no JSON document is an error.
    pub fn record_answer(self, body: &str) -> (r: Result<Self, CheckError>)
        ensures
            match r {
                Ok(checked) => json_valid(body@) && checked.checked_from(
                    &self,
                    json_text_at(body@, "/ip"@),
                    json_text_at(body@, "/country"@),
                ),
                Err(e) => !json_valid(body@) && e == CheckError::Unparseable,
            },
    {
        let pointers = check_pointers();
        match json_texts(body, &pointers) {
            Ok(mut found) => {
                let country = found.pop().unwrap();
                let ip = found.pop().unwrap();
                Ok(self.with_check(ip, country))
            },
            Err(_) => Err(CheckError::Unparseable),
        }
    }
}

impl CheckError {
    /// The error in words, for the proxy that was checked.
    pub fn message(&self, proxy: &ProxyConfig) -> (r: String)
        ensures
            r@ == match self {
                CheckError::UnsupportedProtocol => "Unsupported proxy protocol: "@
                    + proxy.protocol@,
                CheckError::Unparseable => "Failed to parse JSON from SOCKS5 response"@,
            },
    {
        match self {
            CheckError::UnsupportedProtocol => crate::text::joined(
                "Unsupported proxy protocol: ",
                proxy.protocol.as_str(),
            ),
            CheckError::Unparseable => String::from_str(
                "Failed to parse JSON from SOCKS5 response",
            ),
        }
    }
}

impl ProxyManager {
    /// How a proxy is to be checked. A proxy of an unknown protocol cannot
    /// be checked.
    pub fn check_plan(&self, proxy: &ProxyConfig) -> (r: Result<CheckPlan, CheckError>)
        ensures
            plan_view(r) == plan_of(*proxy),
    {
        match UpstreamKind::of_protocol(proxy.protocol.as_str()) {
            Some(UpstreamKind::Http) => Ok(
                CheckPlan::Http {
                    proxy_url: proxy_url(
                        proxy.protocol.as_str(),
                        proxy.username.as_str(),
                        proxy.password.as_str(),
                        proxy.host.as_str(),
                        proxy.port.as_str(),
                    ),
                },
            ),
            Some(UpstreamKind::Socks5) => {
                let proxy_port = match parse_u16(&chars_of(proxy.port.as_str())) {
                    Some(port) => port,
                    None => DEFAULT_SOCKS_PORT,
                };
                Ok(
                    CheckPlan::Socks5 {
                        proxy_host: proxy.host.clone(),
                        proxy_port,
                        username: proxy.username.clone(),
                        password: proxy.password.clone(),
                    },
                )
            },
            None => Err(CheckError::UnsupportedProtocol),
        }
    }

    /// Finishes the check of a proxy with the bytes that the address
    /// service sent through a SOCKS5 tunnel: the JSON document in them is
    /// read, and the record gets what it reports.
    pub fn check_proxy(&self, proxy_config: ProxyConfig, response: &[u8]) -> (r: Result<
        ProxyConfig,
        CheckError,
    >)
        ensures
            ({
                let body = json_part_text(text_of(response@));
                match r {
                    Ok(checked) => json_valid(body) && checked.checked_from(
                        &proxy_config,
                        json_text_at(body, "/ip"@),
                        json_text_at(body, "/country"@),
                    ),
                    Err(e) => !json_valid(body) && e == CheckError::Unparseable,
                }
            }),
    {
        let text = lossy_text(response);
        let body = json_part(text.as_str());
        proxy_config.record_answer(body.as_str())
    }
}

} // verus!
