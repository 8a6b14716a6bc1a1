//! Request-handling checks that sit in front of the API, and the combined
//! screen that applies size, content-type and injection checks to each
//! request and protective headers to each response.
pub mod rate_limiting;
pub mod ip_whitelist;
pub mod security;
pub mod input_validation;
pub mod error_handling;
pub mod critical_error_middleware;
pub mod metrics;

use vstd::prelude::*;
use crate::collections::StrMap;
use crate::middleware::input_validation::ValidationConfig;
use crate::middleware::rate_limiting::RateLimitConfig;
use crate::middleware::security::SecurityConfig;
use crate::text::{
    chars_of, chars_range, concat2, concat3, contains, decimal, find_char, find_first_pattern,
    first_index, first_pattern, is_first_index, lacks_char, lemma_first_index_unique, list_has,
    lower_text, owned, parse_unsigned, parse_unsigned_str, seq_contains, split_chars, split_on,
    str_views, string_from_chars, texts, to_lower, to_upper, u64_to_string, upper_text,
};

verus! {

/// Every security setting of the combined screen.
pub struct EnhancedSecurityConfig {
    pub security: SecurityConfig,
    pub rate_limiting: RateLimitConfig,
    pub input_validation: ValidationConfig,
}

impl EnhancedSecurityConfig {
    /// Default security settings, the global request limit (1000 requests
    /// per 15 minutes, bursts of 100) and an empty validation configuration.
    pub fn new() -> (c: Self)
        ensures
            c.security.request_size_limit == security::DEFAULT_REQUEST_SIZE_LIMIT,
            !c.security.enable_ip_whitelist,
            c.security.allowed_ips@.len() == 0,
            c.security.allowed_origins@.len() == 0,
            c.security.default_headers(),
            c.rate_limiting == (RateLimitConfig { window_ms: 900000, max_requests: 1000, burst_size: 100, enabled: true }),
            c.input_validation.is_empty(),
    {
        EnhancedSecurityConfig {
            security: SecurityConfig::new(),
            rate_limiting: RateLimitConfig { window_ms: 900000, max_requests: 1000, burst_size: 100, enabled: true },
            input_validation: ValidationConfig::new(),
        }
    }
}

/// The combined screen as it is installed.
pub struct ComprehensiveSecurityMiddleware {
    pub config: EnhancedSecurityConfig,
}

impl ComprehensiveSecurityMiddleware {
    /// The screen with the given settings.
    pub fn new(config: EnhancedSecurityConfig) -> (m: Self)
        ensures
            m.config == config,
    {
        ComprehensiveSecurityMiddleware { config }
    }

    /// Replaces the settings.
    pub fn with_config(self, config: EnhancedSecurityConfig) -> (m: Self)
        ensures
            m.config == config,
    {
        ComprehensiveSecurityMiddleware { config }
    }

    /// The service that screens requests with these settings.
    pub fn into_service(self) -> (s: ComprehensiveSecurityMiddlewareService)
        ensures
            s.config == self.config,
    {
        ComprehensiveSecurityMiddlewareService { config: self.config }
    }
}

/// The combined screen as it answers requests.
pub struct ComprehensiveSecurityMiddlewareService {
    pub config: EnhancedSecurityConfig,
}

/// Why the screen refused a request before looking at its contents.
pub enum SecurityRefusal {
    /// 413: the declared length is over the limit; `max_size` is the limit
    /// in whole mebibytes followed by `MB`.
    PayloadTooLarge { max_size: String },
    /// 400: a POST whose content type is neither JSON nor a URL-encoded form.
    InvalidContentType,
}

/// What the screen does with a request, in the order of its checks.
pub enum ScreenOutcome {
    /// Refused on its declared size or content type.
    Refused(SecurityRefusal),
    /// 400 "Input validation failed" with this message.
    InvalidInput(String),
    /// Passed on to the route; `suspicious` says whether a security event
    /// is logged for it.
    Pass { suspicious: bool },
}

/// Words that mark SQL injection, matched against the upper-cased input.
pub open spec fn sql_patterns() -> Seq<Seq<char>> {
    seq!["SELECT"@, "INSERT"@, "UPDATE"@, "DELETE"@, "DROP"@, "CREATE"@, "UNION"@, "OR"@, "AND"@, "EXEC"@, "EXECUTE"@, "SCRIPT"@]
}

/// Fragments that mark script injection, matched against the lower-cased input.
pub open spec fn xss_patterns() -> Seq<Seq<char>> {
    seq!["<script>"@, "javascript:"@, "onload="@, "onerror="@, "onclick="@, "onmouseover="@, "eval("@, "alert("@]
}

/// Characters that mark shell command injection.
pub open spec fn command_patterns() -> Seq<Seq<char>> {
    seq![";"@, "|"@, "&"@, "`"@, "$("@, "&&"@, "||"@, ">"@, "<"@]
}

/// The problem found in `input`, given its upper- and lower-cased forms:
/// SQL words first, then script fragments, then path traversal, then
/// command characters; each list is tried in order.
pub open spec fn input_problem(input: Seq<char>, upper: Seq<char>, lower: Seq<char>) -> Option<Seq<char>> {
    match first_pattern(upper, sql_patterns()) {
        Some(p) => Some("SQL injection pattern detected: "@ + p),
        None => match first_pattern(lower, xss_patterns()) {
            Some(p) => Some("XSS pattern detected: "@ + p),
            None => if seq_contains(input, ".."@) || seq_contains(input, "\\"@) || seq_contains(input, "//"@) {
                Some("Path traversal detected"@)
            } else {
                match first_pattern(input, command_patterns()) {
                    Some(p) => Some("Command injection detected: "@ + p),
                    None => None,
                }
            },
        },
    }
}

/// The problem found in `input`, with std's upper- and lower-casing.
pub open spec fn input_verdict(input: Seq<char>) -> Option<Seq<char>> {
    input_problem(input, upper_text(input), lower_text(input))
}

/// Client addresses that the screen treats as suspicious.
pub open spec fn suspicious_ips() -> Seq<Seq<char>> {
    seq!["127.0.0.1"@, "::1"@, "0.0.0.0"@, "localhost"@]
}

/// User-agent fragments that the screen treats as suspicious.
pub open spec fn suspicious_agents() -> Seq<Seq<char>> {
    seq!["bot"@, "crawler"@, "spider"@, "scraper"@, "curl"@, "wget"@, "python"@, "java"@,
        "nmap"@, "sqlmap"@, "nikto"@, "dirbuster"@, "gobuster"@]
}

/// Path fragments that the screen treats as suspicious.
pub open spec fn suspicious_paths() -> Seq<Seq<char>> {
    seq!["/admin"@, "/config"@, "/debug"@, "/test"@, "/php"@, "/wp-admin"@, "/wp-login"@,
        "/phpmyadmin"@, "/mysql"@, "/sql"@, "/backup"@, "/.env"@, "/.git"@]
}

/// A request is suspicious when its address is listed, its lower-cased
/// user agent holds a listed fragment, or its path holds a listed fragment.
pub open spec fn suspicious(ip: Seq<char>, lower_agent: Seq<char>, path: Seq<char>) -> bool {
    ||| suspicious_ips().contains(ip)
    ||| first_pattern(lower_agent, suspicious_agents()) is Some
    ||| first_pattern(path, suspicious_paths()) is Some
}

/// The problem with one `key=value` query pair: none when the pair has no
/// `=`, else the value's problem (the value is all after the first `=`).
pub open spec fn pair_problem(pair: Seq<char>) -> Option<Seq<char>> {
    if lacks_char(pair, '=') {
        None
    } else {
        let k = first_index(pair, '=');
        match input_verdict(pair.subrange(k + 1, pair.len() as int)) {
            Some(e) => Some("Invalid query parameter '"@ + pair.subrange(0, k) + "': "@ + e),
            None => None,
        }
    }
}

/// The first problem among the query pairs, in order.
pub open spec fn query_problem(pairs: Seq<Seq<char>>) -> Option<Seq<char>>
    decreases pairs.len(),
{
    if pairs.len() == 0 {
        None
    } else if pair_problem(pairs[0]) is Some {
        pair_problem(pairs[0])
    } else {
        query_problem(pairs.drop_first())
    }
}

/// The first problem among the path segments, in order.
pub open spec fn path_problem(segments: Seq<Seq<char>>) -> Option<Seq<char>>
    decreases segments.len(),
{
    if segments.len() == 0 {
        None
    } else {
        match input_verdict(segments[0]) {
            Some(e) => Some("Invalid path segment: "@ + e),
            None => path_problem(segments.drop_first()),
        }
    }
}

/// The problem with a request's query string (split at `&`) and path
/// (split at `/`): the query is checked first.
pub open spec fn request_input_problem(query: Seq<char>, path: Seq<char>) -> Option<Seq<char>> {
    match query_problem(split_on(query, '&')) {
        Some(e) => Some(e),
        None => path_problem(split_on(path, '/')),
    }
}

/// `r` reports exactly the problem `p`.
pub open spec fn reports(r: Result<(), String>, p: Option<Seq<char>>) -> bool {
    match r {
        Ok(_) => p is None,
        Err(e) => p == Some(e@),
    }
}

/// The refusal owed before the contents are looked at: a declared length
/// that reads as a `usize` above the limit, then a POST whose content type
/// names neither JSON nor a URL-encoded form.
pub open spec fn limit_refusal(
    limit: usize,
    content_length: Option<Seq<char>>,
    is_post: bool,
    content_type: Option<Seq<char>>,
) -> Option<bool> {
    if content_length is Some && parse_unsigned(content_length->0, usize::MAX as nat) is Some
        && parse_unsigned(content_length->0, usize::MAX as nat)->0 > limit {
        Some(true)
    } else if is_post && content_type is Some && !seq_contains(content_type->0, "application/json"@)
        && !seq_contains(content_type->0, "application/x-www-form-urlencoded"@) {
        Some(false)
    } else {
        None
    }
}

impl ComprehensiveSecurityMiddlewareService {
    /// Screens one request, as the installed screen does before the route
    /// is called: the declared size, then the content type of a POST (see
    /// `limit_refusal`), then the query and path contents (see
    /// `request_input_problem`); a request that passes every check goes on
    /// to the route, marked when it looks suspicious (see `suspicious`).
    pub fn screen(
        &self,
        client_ip: &str,
        user_agent: &str,
        path: &str,
        query: &str,
        content_length: Option<&str>,
        is_post: bool,
        content_type: Option<&str>,
    ) -> (r: ScreenOutcome)
        ensures
            ({
                let limits = limit_refusal(self.config.security.request_size_limit,
                    match content_length { Some(s) => Some(s@), None => None }, is_post,
                    match content_type { Some(s) => Some(s@), None => None });
                match limits {
                    Some(true) => r matches ScreenOutcome::Refused(SecurityRefusal::PayloadTooLarge { max_size })
                        && max_size@ == decimal((self.config.security.request_size_limit / 1024 / 1024) as nat) + "MB"@,
                    Some(false) => r matches ScreenOutcome::Refused(SecurityRefusal::InvalidContentType),
                    None => match request_input_problem(query@, path@) {
                        Some(m) => r matches ScreenOutcome::InvalidInput(msg) && msg@ == m,
                        None => r matches ScreenOutcome::Pass { suspicious: flag } && flag == suspicious(client_ip@, lower_text(user_agent@), path@),
                    },
                }
            }),
    {
        match self.screen_limits(content_length, is_post, content_type) {
            Some(refusal) => { return ScreenOutcome::Refused(refusal); }
            None => {}
        }
        let flagged = Self::is_suspicious_request(client_ip, user_agent, path);
        match Self::validate_request_input(query, path) {
            Err(message) => ScreenOutcome::InvalidInput(message),
            Ok(()) => ScreenOutcome::Pass { suspicious: flagged },
        }
    }
}

/// The Content-Security-Policy value sent with every response.
pub open spec fn csp_value() -> Seq<char> {
    "default-src 'self'; script-src 'self' 'unsafe-inline' 'unsafe-eval'; style-src 'self' 'unsafe-inline';"@
}

/// The protective headers that the settings switch on, in a fixed order.
pub open spec fn protective_headers(c: SecurityConfig) -> Seq<(Seq<char>, Seq<char>)> {
    let h1 = if c.enable_content_security_policy { seq![("content-security-policy"@, csp_value())] } else { seq![] };
    let h2 = if c.enable_frame_options { h1.push(("x-frame-options"@, "DENY"@)) } else { h1 };
    let h3 = if c.enable_content_type_options { h2.push(("x-content-type-options"@, "nosniff"@)) } else { h2 };
    let h4 = if c.enable_xss_protection { h3.push(("x-xss-protection"@, "1; mode=block"@)) } else { h3 };
    let h5 = if c.enable_hsts { h4.push(("strict-transport-security"@, "max-age=31536000; includeSubDomains"@)) } else { h4 };
    let h6 = if c.enable_referrer_policy { h5.push(("referrer-policy"@, "strict-origin-when-cross-origin"@)) } else { h5 };
    if c.enable_permissions_policy { h6.push(("permissions-policy"@, "geolocation=(), microphone=(), camera=()"@)) } else { h6 }
}

/// The extra headers, with lower-cased names, in order.
pub open spec fn custom_headers(p: Seq<(Seq<char>, String)>) -> Seq<(Seq<char>, Seq<char>)> {
    p.map_values(|e: (Seq<char>, String)| (lower_text(e.0), e.1@))
}

/// The views of a list of (name, value) headers.
pub open spec fn header_views(v: Seq<(String, String)>) -> Seq<(Seq<char>, Seq<char>)> {
    v.map_values(|e: (String, String)| (e.0@, e.1@))
}

fn push_header(headers: &mut Vec<(String, String)>, name: &str, value: &str)
    ensures
        header_views(final(headers)@) == header_views(old(headers)@).push((name@, value@)),
{
    let ghost before = headers@;
    headers.push((owned(name), owned(value)));
    assert(header_views(headers@) =~= header_views(before).push((name@, value@)));
}

impl ComprehensiveSecurityMiddlewareService {
    /// Looks for injection in `input`, given its upper- and lower-cased
    /// forms (see `input_problem`).
    pub fn validate_input_cased(input: &str, upper: &str, lower: &str) -> (r: Result<(), String>)
        ensures
            reports(r, input_problem(input@, upper@, lower@)),
    {
        let sql: Vec<&str> = vec!["SELECT", "INSERT", "UPDATE", "DELETE", "DROP", "CREATE", "UNION", "OR", "AND", "EXEC", "EXECUTE", "SCRIPT"];
        assert(str_views(sql@) =~= sql_patterns());
        if let Some(i) = find_first_pattern(upper, &sql) {
            return Err(concat2("SQL injection pattern detected: ", sql[i]));
        }
        let xss: Vec<&str> = vec!["<script>", "javascript:", "onload=", "onerror=", "onclick=", "onmouseover=", "eval(", "alert("];
        assert(str_views(xss@) =~= xss_patterns());
        if let Some(i) = find_first_pattern(lower, &xss) {
            return Err(concat2("XSS pattern detected: ", xss[i]));
        }
        if contains(input, "..") || contains(input, "\\") || contains(input, "//") {
            return Err(owned("Path traversal detected"));
        }
        let cmd: Vec<&str> = vec![";", "|", "&", "`", "$(", "&&", "||", ">", "<"];
        assert(str_views(cmd@) =~= command_patterns());
        if let Some(i) = find_first_pattern(input, &cmd) {
            return Err(concat2("Command injection detected: ", cmd[i]));
        }
        Ok(())
    }

    /// Looks for injection in `input` (see `input_verdict`).
    pub fn validate_input(input: &str) -> (r: Result<(), String>)
        ensures
            reports(r, input_verdict(input@)),
    {
        let upper = to_upper(input);
        let lower = to_lower(input);
        Self::validate_input_cased(input, upper.as_str(), lower.as_str())
    }

    /// Whether a request looks suspicious, given the lower-cased user agent
    /// (see `suspicious`).
    pub fn is_suspicious_cased(ip: &str, lower_agent: &str, path: &str) -> (r: bool)
        ensures
            r == suspicious(ip@, lower_agent@, path@),
    {
        let ips: Vec<&str> = vec!["127.0.0.1", "::1", "0.0.0.0", "localhost"];
        assert(str_views(ips@) =~= suspicious_ips());
        let agents: Vec<&str> = vec!["bot", "crawler", "spider", "scraper", "curl", "wget", "python", "java",
            "nmap", "sqlmap", "nikto", "dirbuster", "gobuster"];
        assert(str_views(agents@) =~= suspicious_agents());
        let paths: Vec<&str> = vec!["/admin", "/config", "/debug", "/test", "/php", "/wp-admin", "/wp-login",
            "/phpmyadmin", "/mysql", "/sql", "/backup", "/.env", "/.git"];
        assert(str_views(paths@) =~= suspicious_paths());
        list_has(&ips, ip) || find_first_pattern(lower_agent, &agents).is_some()
            || find_first_pattern(path, &paths).is_some()
    }

    /// Whether a request looks suspicious (see `suspicious`, with std's
    /// lower-casing of the user agent).
    pub fn is_suspicious_request(ip: &str, user_agent: &str, path: &str) -> (r: bool)
        ensures
            r == suspicious(ip@, lower_text(user_agent@), path@),
    {
        let lower = to_lower(user_agent);
        Self::is_suspicious_cased(ip, lower.as_str(), path)
    }

    /// The problem with one query pair (see `pair_problem`).
    fn check_pair(pair: &str) -> (r: Result<(), String>)
        ensures
            reports(r, pair_problem(pair@)),
    {
        let cs = chars_of(pair);
        let found = find_char(&cs, '=');
        match found {
            None => Ok(()),
            Some(k) => {
                assert(is_first_index(cs@, '=', k as int));
                assert(k < cs.len());
                let after: usize = k + 1;
                let key = string_from_chars(&chars_range(&cs, 0, k));
                let value = string_from_chars(&chars_range(&cs, after, cs.len()));
                proof {
                    assert(!lacks_char(pair@, '='));
                    let j = first_index(pair@, '=');
                    assert(is_first_index(pair@, '=', k as int));
                    lemma_first_index_unique(pair@, '=', j, k as int);
                }
                match Self::validate_input(value.as_str()) {
                    Ok(_) => Ok(()),
                    Err(e) => Err(concat2(concat3("Invalid query parameter '", key.as_str(), "': ").as_str(), e.as_str())),
                }
            },
        }
    }

    /// Checks the query values and the path segments of a request for
    /// injection (see `request_input_problem`).
    pub fn validate_request_input(query: &str, path: &str) -> (r: Result<(), String>)
        ensures
            reports(r, request_input_problem(query@, path@)),
    {
        let pairs = split_chars(query, '&');
        let ghost all_pairs = texts(pairs@);
        let mut i: usize = 0;
        assert(all_pairs.subrange(0, all_pairs.len() as int) =~= all_pairs);
        while i < pairs.len()
            invariant
                i <= pairs.len(),
                all_pairs == texts(pairs@),
                all_pairs == split_on(query@, '&'),
                query_problem(all_pairs) == query_problem(all_pairs.subrange(i as int, all_pairs.len() as int)),
            decreases pairs.len() - i,
        {
            let ghost rest = all_pairs.subrange(i as int, all_pairs.len() as int);
            assert(rest[0] == pairs@[i as int]@);
            assert(rest.drop_first() =~= all_pairs.subrange(i + 1, all_pairs.len() as int));
            match Self::check_pair(pairs[i].as_str()) {
                Ok(_) => {},
                Err(e) => return Err(e),
            }
            i = i + 1;
        }
        let segments = split_chars(path, '/');
        let ghost all_segs = texts(segments@);
        let mut j: usize = 0;
        assert(all_segs.subrange(0, all_segs.len() as int) =~= all_segs);
        while j < segments.len()
            invariant
                j <= segments.len(),
                all_segs == texts(segments@),
                all_segs == split_on(path@, '/'),
                query_problem(split_on(query@, '&')) is None,
                path_problem(all_segs) == path_problem(all_segs.subrange(j as int, all_segs.len() as int)),
            decreases segments.len() - j,
        {
            let ghost rest = all_segs.subrange(j as int, all_segs.len() as int);
            assert(rest[0] == segments@[j as int]@);
            assert(rest.drop_first() =~= all_segs.subrange(j + 1, all_segs.len() as int));
            match Self::validate_input(segments[j].as_str()) {
                Ok(_) => {},
                Err(e) => return Err(concat2("Invalid path segment: ", e.as_str())),
            }
            j = j + 1;
        }
        Ok(())
    }

    /// The refusal owed before the request's contents are looked at (see
    /// `limit_refusal`): `content_length` and `content_type` are the header
    /// texts, when present.
    pub fn screen_limits(&self, content_length: Option<&str>, is_post: bool, content_type: Option<&str>) -> (r: Option<SecurityRefusal>)
        ensures
            match r {
                None => limit_refusal(self.config.security.request_size_limit,
                    match content_length { Some(s) => Some(s@), None => None }, is_post,
                    match content_type { Some(s) => Some(s@), None => None }) is None,
                Some(SecurityRefusal::PayloadTooLarge { max_size }) =>
                    limit_refusal(self.config.security.request_size_limit,
                        match content_length { Some(s) => Some(s@), None => None }, is_post,
                        match content_type { Some(s) => Some(s@), None => None }) == Some(true)
                    && max_size@ == decimal((self.config.security.request_size_limit / 1024 / 1024) as nat) + "MB"@,
                Some(SecurityRefusal::InvalidContentType) =>
                    limit_refusal(self.config.security.request_size_limit,
                        match content_length { Some(s) => Some(s@), None => None }, is_post,
                        match content_type { Some(s) => Some(s@), None => None }) == Some(false),
            },
    {
        let limit = self.config.security.request_size_limit;
        if let Some(len) = content_length {
            if let Some(n) = parse_unsigned_str(len, usize::MAX as u64) {
                if n > limit as u64 {
                    let mb = limit / 1024 / 1024;
                    let max_size = concat2(u64_to_string(mb as u64).as_str(), "MB");
                    return Some(SecurityRefusal::PayloadTooLarge { max_size });
                }
            }
        }
        if is_post {
            if let Some(ct) = content_type {
                if !contains(ct, "application/json") && !contains(ct, "application/x-www-form-urlencoded") {
                    return Some(SecurityRefusal::InvalidContentType);
                }
            }
        }
        None
    }

    /// The headers to set on every response: the protective ones that the
    /// settings switch on, then the extra ones with lower-cased names.
    pub fn response_headers(config: &EnhancedSecurityConfig) -> (r: Vec<(String, String)>)
        ensures
            header_views(r@) == protective_headers(config.security)
                + custom_headers(config.security.security_headers.pairs()),
    {
        let c = &config.security;
        let mut h: Vec<(String, String)> = Vec::new();
        assert(header_views(h@) =~= seq![]);
        if c.enable_content_security_policy {
            push_header(&mut h, "content-security-policy",
                "default-src 'self'; script-src 'self' 'unsafe-inline' 'unsafe-eval'; style-src 'self' 'unsafe-inline';");
            assert(header_views(h@) =~= seq![("content-security-policy"@, csp_value())]);
        }
        if c.enable_frame_options {
            push_header(&mut h, "x-frame-options", "DENY");
        }
        if c.enable_content_type_options {
            push_header(&mut h, "x-content-type-options", "nosniff");
        }
        if c.enable_xss_protection {
            push_header(&mut h, "x-xss-protection", "1; mode=block");
        }
        if c.enable_hsts {
            push_header(&mut h, "strict-transport-security", "max-age=31536000; includeSubDomains");
        }
        if c.enable_referrer_policy {
            push_header(&mut h, "referrer-policy", "strict-origin-when-cross-origin");
        }
        if c.enable_permissions_policy {
            push_header(&mut h, "permissions-policy", "geolocation=(), microphone=(), camera=()");
        }
        assert(header_views(h@) == protective_headers(*c));
        let ghost fixed = header_views(h@);
        let n = c.security_headers.len();
        let mut i: usize = 0;
        while i < n
            invariant
                n == c.security_headers.pairs().len(),
                i <= n,
                header_views(h@) == fixed + custom_headers(c.security_headers.pairs().subrange(0, i as int)),
            decreases n - i,
        {
            let (name, value) = c.security_headers.entry_at(i);
            let lowered = to_lower(name.as_str());
            push_header(&mut h, lowered.as_str(), value.as_str());
            assert(custom_headers(c.security_headers.pairs().subrange(0, i + 1)) =~=
                custom_headers(c.security_headers.pairs().subrange(0, i as int)).push((lowered@, value@)));
            i = i + 1;
        }
        assert(c.security_headers.pairs().subrange(0, n as int) =~= c.security_headers.pairs());
        h
    }

    /// The log line for a security event.
    pub fn security_event_line(event_type: &str, ip: &str, user_agent: &str, path: &str, severity: &str) -> (r: String)
        ensures
            r@ == "COMPREHENSIVE_SECURITY_EVENT: "@ + event_type@ + " - IP: "@ + ip@ + " - UA: "@
                + user_agent@ + " - Path: "@ + path@ + " - Severity: "@ + severity@,
    {
        let a = concat3("COMPREHENSIVE_SECURITY_EVENT: ", event_type, " - IP: ");
        let b = concat3(a.as_str(), ip, " - UA: ");
        let c = concat3(b.as_str(), user_agent, " - Path: ");
        let d = concat3(c.as_str(), path, " - Severity: ");
        concat2(d.as_str(), severity)
    }
}

/// Production settings: the address allow-list on, with the three private ranges.
pub fn create_production_security_config() -> (c: EnhancedSecurityConfig)
    ensures
        c.security.enable_ip_whitelist,
        texts(c.security.allowed_ips@) == seq!["10.0.0.0/8"@, "172.16.0.0/12"@, "192.168.0.0/16"@],
        c.security.allowed_origins@.len() == 0,
        c.security.request_size_limit == security::DEFAULT_REQUEST_SIZE_LIMIT,
        c.security.default_headers(),
        c.rate_limiting == (RateLimitConfig { window_ms: 900000, max_requests: 1000, burst_size: 100, enabled: true }),
        c.input_validation.is_empty(),
{
    let mut c = EnhancedSecurityConfig::new();
    c.security.enable_ip_whitelist = true;
    c.security.allowed_ips = vec![owned("10.0.0.0/8"), owned("172.16.0.0/12"), owned("192.168.0.0/16")];
    assert(texts(c.security.allowed_ips@) =~= seq!["10.0.0.0/8"@, "172.16.0.0/12"@, "192.168.0.0/16"@]);
    c
}

/// Development settings: no address allow-list, every origin allowed.
pub fn create_development_security_config() -> (c: EnhancedSecurityConfig)
    ensures
        !c.security.enable_ip_whitelist,
        c.security.allowed_ips@.len() == 0,
        texts(c.security.allowed_origins@) == seq!["*"@],
        c.security.request_size_limit == security::DEFAULT_REQUEST_SIZE_LIMIT,
        c.security.default_headers(),
        c.rate_limiting == (RateLimitConfig { window_ms: 900000, max_requests: 1000, burst_size: 100, enabled: true }),
        c.input_validation.is_empty(),
{
    let mut c = EnhancedSecurityConfig::new();
    c.security.enable_ip_whitelist = false;
    c.security.allowed_origins = vec![owned("*")];
    assert(texts(c.security.allowed_origins@) =~= seq!["*"@]);
    c
}

} // verus!
