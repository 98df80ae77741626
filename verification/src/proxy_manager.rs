//! Proxy records that are kept by name, with the addresses that a proxy was
//! seen to leave from.

use vstd::prelude::*;
use vstd::string::StringExecFns;
use crate::codec::{json_text_at, json_texts, json_valid, text_view};
use crate::proxy::proxy_manager::{country_accept_language, country_lang, known_country};
use crate::text::{chars_of, holds, same_text, text_or, texts};

verus! {

/// The browser language settings that go with a country.
#[derive(Clone, Copy, Debug)]
pub struct LanguageSettings {
    /// The value of the browser's `--lang` switch.
    pub lang: &'static str,
    /// The value of the browser's `--accept-lang` switch.
    pub accept_language: &'static str,
}

/// The `--lang` value of a country; American English where the country is
/// not known.
pub open spec fn lang_or_default(country: Seq<char>) -> Seq<char> {
    if known_country(country) {
        country_lang(country)
    } else {
        "en-US"@
    }
}

/// The `--accept-lang` value of a country; American English where the
/// country is not known.
pub open spec fn accept_language_or_default(country: Seq<char>) -> Seq<char> {
    if known_country(country) {
        country_accept_language(country)
    } else {
        "en-US,en;q=0.9"@
    }
}

/// The language settings of a country.
pub fn get_language_settings(country_code: &str) -> (r: LanguageSettings)
    ensures
        r.lang@ == lang_or_default(country_code@),
        r.accept_language@ == accept_language_or_default(country_code@),
{
    let code = chars_of(country_code);
    if same_text(&code, &chars_of("US")) {
        LanguageSettings { lang: "en-US", accept_language: "en-US,en;q=0.9" }
    } else if same_text(&code, &chars_of("IT")) {
        LanguageSettings { lang: "it-IT", accept_language: "it-IT,it;q=0.9" }
    } else if same_text(&code, &chars_of("FR")) {
        LanguageSettings { lang: "fr-FR", accept_language: "fr-FR,fr;q=0.9" }
    } else {
        LanguageSettings { lang: "en-US", accept_language: "en-US,en;q=0.9" }
    }
}

/// One proxy, known by its name.
#[derive(Debug)]
pub struct ProxyConfig {
    pub proxy_name: String,
    pub proxy_type: String,
    pub proxy_host: String,
    pub proxy_port: String,
    pub proxy_username: String,
    pub proxy_password: String,
    pub country: String,
    pub lang_arg: String,
    pub accept_language_arg: String,
    /// The address that the proxy was last seen to leave from.
    pub last_ip: String,
    /// Every such address, each once, in the order in which they were seen.
    pub used_ips: Vec<String>,
}

/// Why a check of a proxy gave nothing.
#[derive(Clone, Copy, Debug, PartialEq, Eq, Structural)]
pub enum CheckError {
    /// The answer of the address service is no JSON document.
    Unparseable,
}

/// The address that a check reports; a placeholder where it reports none.
pub open spec fn reported_ip(ip: Option<Seq<char>>) -> Seq<char> {
    match ip {
        Some(ip) => ip,
        None => "Unknown IP"@,
    }
}

/// The country that a check reports; a placeholder where it reports none.
pub open spec fn reported_country(country: Option<Seq<char>>) -> Seq<char> {
    match country {
        Some(country) => country,
        None => "Unknown Country"@,
    }
}

/// The list of addresses after `ip` was seen: it is appended unless the
/// list holds it already.
pub open spec fn seen(used: Seq<Seq<char>>, ip: Seq<char>) -> Seq<Seq<char>> {
    if used.contains(ip) {
        used
    } else {
        used.push(ip)
    }
}

/// The URL that names a proxy with its credentials.
pub open spec fn proxy_url_text(
    kind: Seq<char>,
    username: Seq<char>,
    password: Seq<char>,
    host: Seq<char>,
    port: Seq<char>,
) -> Seq<char> {
    kind + "://"@ + username + ":"@ + password + "@"@ + host + ":"@ + port
}

/// Writes the URL that names a proxy with its credentials.
pub fn proxy_url(kind: &str, username: &str, password: &str, host: &str, port: &str) -> (r: String)
    ensures
        r@ == proxy_url_text(kind@, username@, password@, host@, port@),
{
    let mut url = String::new();
    url.append(kind);
    url.append("://");
    url.append(username);
    url.append(":");
    url.append(password);
    url.append("@");
    url.append(host);
    url.append(":");
    url.append(port);
    assert(url@ =~= proxy_url_text(kind@, username@, password@, host@, port@));
    url
}

/// The two pointers that a check reads in the address service's answer.
pub fn check_pointers() -> (r: Vec<&'static str>)
    ensures
        r@.len() == 2,
        r@[0]@ == "/ip"@,
        r@[1]@ == "/country"@,
{
    let mut pointers: Vec<&'static str> = Vec::new();
    pointers.push("/ip");
    pointers.push("/country");
    pointers
}

impl Clone for ProxyConfig {
    fn clone(&self) -> (r: Self)
        ensures
            r.same_proxy(self),
            r.same_findings(self),
    {
        let used_ips = self.used_ips.clone();
        assert(used_ips@ =~= self.used_ips@);
        ProxyConfig {
            proxy_name: self.proxy_name.clone(),
            proxy_type: self.proxy_type.clone(),
            proxy_host: self.proxy_host.clone(),
            proxy_port: self.proxy_port.clone(),
            proxy_username: self.proxy_username.clone(),
            proxy_password: self.proxy_password.clone(),
            country: self.country.clone(),
            lang_arg: self.lang_arg.clone(),
            accept_language_arg: self.accept_language_arg.clone(),
            last_ip: self.last_ip.clone(),
            used_ips,
        }
    }
}

impl ProxyConfig {
    /// Both records hold the same results of checks.
    pub open spec fn same_findings(&self, other: &ProxyConfig) -> bool {
        &&& self.country == other.country
        &&& self.lang_arg == other.lang_arg
        &&& self.accept_language_arg == other.accept_language_arg
        &&& self.last_ip == other.last_ip
        &&& self.used_ips@ == other.used_ips@
    }

    /// An empty record.
    pub fn new() -> (r: Self)
        ensures
            r.proxy_name@ == Seq::<char>::empty(),
            r.proxy_type@ == Seq::<char>::empty(),
            r.proxy_host@ == Seq::<char>::empty(),
            r.proxy_port@ == Seq::<char>::empty(),
            r.proxy_username@ == Seq::<char>::empty(),
            r.proxy_password@ == Seq::<char>::empty(),
            r.country@ == Seq::<char>::empty(),
            r.lang_arg@ == Seq::<char>::empty(),
            r.accept_language_arg@ == Seq::<char>::empty(),
            r.last_ip@ == Seq::<char>::empty(),
            r.used_ips@.len() == 0,
    {
        ProxyConfig {
            proxy_name: String::new(),
            proxy_type: String::new(),
            proxy_host: String::new(),
            proxy_port: String::new(),
            proxy_username: String::new(),
            proxy_password: String::new(),
            country: String::new(),
            lang_arg: String::new(),
            accept_language_arg: String::new(),
            last_ip: String::new(),
            used_ips: Vec::new(),
        }
    }

    /// Nothing but the results of a check differs between the two records.
    pub open spec fn same_proxy(&self, other: &ProxyConfig) -> bool {
        &&& self.proxy_name == other.proxy_name
        &&& self.proxy_type == other.proxy_type
        &&& self.proxy_host == other.proxy_host
        &&& self.proxy_port == other.proxy_port
        &&& self.proxy_username == other.proxy_username
        &&& self.proxy_password == other.proxy_password
    }

    /// The record holds what a check found: the address, the list of
    /// addresses with it, the country and the country's language settings.
    pub open spec fn checked_from(
        &self,
        before: &ProxyConfig,
        ip: Option<Seq<char>>,
        country: Option<Seq<char>>,
    ) -> bool {
        &&& self.same_proxy(before)
        &&& self.last_ip@ == reported_ip(ip)
        &&& texts(self.used_ips@) == seen(texts(before.used_ips@), reported_ip(ip))
        &&& self.country@ == reported_country(country)
        &&& self.lang_arg@ == lang_or_default(reported_country(country))
        &&& self.accept_language_arg@ == accept_language_or_default(reported_country(country))
    }

    /// The URL through which the proxy is checked.
    pub fn check_url(&self) -> (r: String)
        ensures
            r@ == proxy_url_text(
                self.proxy_type@,
                self.proxy_username@,
                self.proxy_password@,
                self.proxy_host@,
                self.proxy_port@,
            ),
    {
        proxy_url(
            self.proxy_type.as_str(),
            self.proxy_username.as_str(),
            self.proxy_password.as_str(),
            self.proxy_host.as_str(),
            self.proxy_port.as_str(),
        )
    }

    /// Records what a check found.
    pub fn with_check(self, ip: Option<String>, country: Option<String>) -> (r: Self)
        ensures
            r.checked_from(&self, text_view(ip), text_view(country)),
    {
        let ip = text_or(ip, "Unknown IP");
        let country = text_or(country, "Unknown Country");
        let settings = get_language_settings(country.as_str());
        let mut used_ips = self.used_ips;
        let ghost before = texts(used_ips@);
        if !holds(&used_ips, &ip) {
            used_ips.push(ip.clone());
            assert(texts(used_ips@) =~= before.push(ip@));
        }
        ProxyConfig {
            proxy_name: self.proxy_name,
            proxy_type: self.proxy_type,
            proxy_host: self.proxy_host,
            proxy_port: self.proxy_port,
            proxy_username: self.proxy_username,
            proxy_password: self.proxy_password,
            country,
            lang_arg: String::from_str(settings.lang),
            accept_language_arg: String::from_str(settings.accept_language),
            last_ip: ip,
            used_ips,
        }
    }

    /// Reads the address service's answer and records what it reports. An
    /// answer that is no JSON document is an error.
    pub fn record_check(self, body: &str) -> (r: Result<Self, CheckError>)
        ensures
            match r {
                Ok(checked) => json_valid(body@) && checked.checked_from(
                    &self,
                    json_text_at(body@, "/ip"@),
                    json_text_at(body@, "/country"@),
                ),
                Err(e) => !json_valid(body@) && e == CheckError::Unparseable,
            },
    {
        let pointers = check_pointers();
        match json_texts(body, &pointers) {
            Ok(mut found) => {
                let country = found.pop().unwrap();
                let ip = found.pop().unwrap();
                Ok(self.with_check(ip, country))
            },
            Err(_) => Err(CheckError::Unparseable),
        }
    }
}

impl CheckError {
    /// The error in words.
    pub fn message(&self) -> (r: &'static str)
        ensures
            r@ == "Error parsing the response."@,
    {
        "Error parsing the response."
    }
}

/// The position of the first record at or after `from` with the given name;
/// the number of records if there is none.
pub open spec fn position_of_name(proxies: Seq<ProxyConfig>, name: Seq<char>, from: int) -> int
    decreases proxies.len() - from,
{
    if from < 0 || from >= proxies.len() {
        proxies.len() as int
    } else if proxies[from].proxy_name@ == name {
        from
    } else {
        position_of_name(proxies, name, from + 1)
    }
}

/// Puts a checked record in the place of the first record of its name;
/// tells whether there was one. Without one the list stays as it is.
pub fn replace_checked(proxies: &mut Vec<ProxyConfig>, checked: ProxyConfig) -> (found: bool)
    ensures
        found == (position_of_name(old(proxies)@, checked.proxy_name@, 0) < old(proxies)@.len()),
        found ==> final(proxies)@ == old(proxies)@.update(
            position_of_name(old(proxies)@, checked.proxy_name@, 0),
            checked,
        ),
        !found ==> final(proxies)@ == old(proxies)@,
{
    let mut i: usize = 0;
    while i < proxies.len()
        invariant
            i <= proxies.len(),
            proxies@ == old(proxies)@,
            position_of_name(proxies@, checked.proxy_name@, 0) == position_of_name(
                proxies@,
                checked.proxy_name@,
                i as int,
            ),
        decreases proxies.len() - i,
    {
        if proxies[i].proxy_name == checked.proxy_name {
            proxies.set(i, checked);
            return true;
        }
        i += 1;
    }
    false
}

} // verus!
