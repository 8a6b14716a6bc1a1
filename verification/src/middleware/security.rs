//! The security settings that the combined request screen reads: the body
//! size limit, which protective response headers to send, extra headers,
//! and the address and origin lists.
use vstd::prelude::*;
use crate::collections::StrMap;

verus! {

/// Security settings for the request screen and the response headers.
pub struct SecurityConfig {
    /// Largest accepted `Content-Length`, in bytes.
    pub request_size_limit: usize,
    pub enable_content_security_policy: bool,
    pub enable_frame_options: bool,
    pub enable_content_type_options: bool,
    pub enable_xss_protection: bool,
    pub enable_hsts: bool,
    pub enable_referrer_policy: bool,
    pub enable_permissions_policy: bool,
    /// Extra response headers, name to value.
    pub security_headers: StrMap<String>,
    pub enable_ip_whitelist: bool,
    pub allowed_ips: Vec<String>,
    pub allowed_origins: Vec<String>,
}

/// The default body size limit: ten mebibytes.
pub const DEFAULT_REQUEST_SIZE_LIMIT: usize = 10485760;

impl SecurityConfig {
    /// Every header switch is on and no extra header is set, as in `new`.
    pub open spec fn default_headers(&self) -> bool {
        &&& self.enable_content_security_policy
        &&& self.enable_frame_options
        &&& self.enable_content_type_options
        &&& self.enable_xss_protection
        &&& self.enable_hsts
        &&& self.enable_referrer_policy
        &&& self.enable_permissions_policy
        &&& self.security_headers@ == Map::<Seq<char>, String>::empty()
    }

    /// The default settings: a ten-mebibyte body limit, every protective
    /// header on, no extra headers, no address allow-list, no origins.
    pub fn new() -> (c: Self)
        ensures
            c.request_size_limit == DEFAULT_REQUEST_SIZE_LIMIT,
            c.enable_content_security_policy,
            c.enable_frame_options,
            c.enable_content_type_options,
            c.enable_xss_protection,
            c.enable_hsts,
            c.enable_referrer_policy,
            c.enable_permissions_policy,
            c.security_headers@ == Map::<Seq<char>, String>::empty(),
            c.security_headers.pairs().len() == 0,
            !c.enable_ip_whitelist,
            c.allowed_ips@.len() == 0,
            c.allowed_origins@.len() == 0,
    {
        SecurityConfig {
            request_size_limit: DEFAULT_REQUEST_SIZE_LIMIT,
            enable_content_security_policy: true,
            enable_frame_options: true,
            enable_content_type_options: true,
            enable_xss_protection: true,
            enable_hsts: true,
            enable_referrer_policy: true,
            enable_permissions_policy: true,
            security_headers: StrMap::new(),
            enable_ip_whitelist: false,
            allowed_ips: Vec::new(),
            allowed_origins: Vec::new(),
        }
    }
}

} // verus!
