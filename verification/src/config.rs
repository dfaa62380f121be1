//! Per-instance filter configuration.
//!
//! The host hands the filter one configuration document at startup. A
//! document that is not a JSON object fails configuration (the instance
//! does not activate); in a well-formed document every recognized option
//! falls back to its documented default when absent or of the wrong type.

use vstd::prelude::*;
use vstd::string::StringExecFns;
use crate::json::{
    extract_string_field, extract_u64_field, json_doc_is_object, spec_is_json_object,
    spec_string_field, spec_u64_field,
};

verus! {

/// Steady-state synchronization cadence when the configuration document
/// names none, in seconds.
pub const DEFAULT_CACHE_REFRESH_SECS: u64 = 360;

/// Immutable per-instance configuration: the upstream target names and
/// call paths for the authorization and cache-synchronization calls, and
/// the steady-state cache refresh cadence.
#[derive(Clone)]
pub struct FilterConfig {
    pub management_service_target: String,
    pub auth_path: String,
    pub auth_authority: String,
    pub cache_path: String,
    pub cache_authority: String,
    pub cache_refresh_secs: u64,
}

/// Mathematical model of a `FilterConfig`.
pub struct FilterConfigModel {
    pub management_service_target: Seq<char>,
    pub auth_path: Seq<char>,
    pub auth_authority: Seq<char>,
    pub cache_path: Seq<char>,
    pub cache_authority: Seq<char>,
    pub cache_refresh_secs: u64,
}

impl View for FilterConfig {
    type V = FilterConfigModel;

    open spec fn view(&self) -> FilterConfigModel {
        FilterConfigModel {
            management_service_target: self.management_service_target@,
            auth_path: self.auth_path@,
            auth_authority: self.auth_authority@,
            cache_path: self.cache_path@,
            cache_authority: self.cache_authority@,
            cache_refresh_secs: self.cache_refresh_secs,
        }
    }
}

/// The documented defaults.
pub open spec fn spec_default_config() -> FilterConfigModel {
    FilterConfigModel {
        management_service_target: "management-service"@,
        auth_path: "/auth"@,
        auth_authority: "ext_authz"@,
        cache_path: "/cache"@,
        cache_authority: "cache_service"@,
        cache_refresh_secs: DEFAULT_CACHE_REFRESH_SECS,
    }
}

/// The configuration a well-formed document `doc` denotes: each option's
/// value where the document holds one, its default where not.
pub open spec fn spec_config_of(doc: Seq<u8>) -> FilterConfigModel {
    FilterConfigModel {
        management_service_target: match spec_string_field(doc, "management_service_target"@) {
            Some(s) => s,
            None => spec_default_config().management_service_target,
        },
        auth_path: match spec_string_field(doc, "auth_path"@) {
            Some(s) => s,
            None => spec_default_config().auth_path,
        },
        auth_authority: match spec_string_field(doc, "auth_authority"@) {
            Some(s) => s,
            None => spec_default_config().auth_authority,
        },
        cache_path: match spec_string_field(doc, "cache_path"@) {
            Some(s) => s,
            None => spec_default_config().cache_path,
        },
        cache_authority: match spec_string_field(doc, "cache_authority"@) {
            Some(s) => s,
            None => spec_default_config().cache_authority,
        },
        cache_refresh_secs: match spec_u64_field(doc, "cache_refresh_interval"@) {
            Some(n) => n,
            None => DEFAULT_CACHE_REFRESH_SECS,
        },
    }
}

impl Default for FilterConfig {
    /// The configuration used when no document names an option.
    fn default() -> (c: FilterConfig)
        ensures
            c@ == spec_default_config(),
    {
        FilterConfig {
            management_service_target: String::from_str("management-service"),
            auth_path: String::from_str("/auth"),
            auth_authority: String::from_str("ext_authz"),
            cache_path: String::from_str("/cache"),
            cache_authority: String::from_str("cache_service"),
            cache_refresh_secs: DEFAULT_CACHE_REFRESH_SECS,
        }
    }
}

impl FilterConfig {
    /// Parses a configuration document. Fails exactly on a document that
    /// is not a JSON object; in a well-formed one, each recognized option
    /// falls back to its default when absent or of the wrong type.
    pub fn from_document(doc: &[u8]) -> (r: Option<FilterConfig>)
        ensures
            r is Some <==> spec_is_json_object(doc@),
            match r {
                Some(c) => c@ == spec_config_of(doc@),
                None => true,
            },
    {
        if !json_doc_is_object(doc) {
            return None;
        }
        let management_service_target = match extract_string_field(
            doc,
            "management_service_target",
        ) {
            Some(s) => s,
            None => String::from_str("management-service"),
        };
        let auth_path = match extract_string_field(doc, "auth_path") {
            Some(s) => s,
            None => String::from_str("/auth"),
        };
        let auth_authority = match extract_string_field(doc, "auth_authority") {
            Some(s) => s,
            None => String::from_str("ext_authz"),
        };
        let cache_path = match extract_string_field(doc, "cache_path") {
            Some(s) => s,
            None => String::from_str("/cache"),
        };
        let cache_authority = match extract_string_field(doc, "cache_authority") {
            Some(s) => s,
            None => String::from_str("cache_service"),
        };
        let cache_refresh_secs = match extract_u64_field(doc, "cache_refresh_interval") {
            Some(n) => n,
            None => DEFAULT_CACHE_REFRESH_SECS,
        };
        Some(
            FilterConfig {
                management_service_target,
                auth_path,
                auth_authority,
                cache_path,
                cache_authority,
                cache_refresh_secs,
            },
        )
    }
}

} // verus!
