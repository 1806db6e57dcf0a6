//! Fingerprint probes and their match rules.
//!
//! A probe carries raw directive bytes to send to a target and an ordered
//! list of match rules; a rule matches when its raw-byte regex finds any
//! match in the response, and every matching rule contributes its service
//! name (no first-match short-circuit).

use vstd::prelude::*;
use crate::collect::views_of;

verus! {

/// One match rule: a service name, a raw-byte regex pattern, and a
/// version-info template (consumed by an external collaborator).
pub struct Matches {
    pub service: String,
    pub pattern: Vec<u8>,
    pub version_info: String,
}

/// One fingerprint probe of the database: directive bytes to send, the rules
/// to hold the response against, and routing metadata.
pub struct NmapFingerPrintLib {
    pub matches: Vec<Matches>,
    pub directive_name: String,
    pub protocol: String,
    pub directive_str: Vec<u8>,
    pub total_wait_ms: Option<u8>,
    pub tcp_wrapped_ms: Option<u8>,
    pub rarity: u8,
    pub ports: Vec<u16>,
    pub ssl_ports: Option<String>,
    pub fallback: Option<String>,
}

#[verifier::external_type_specification]
#[verifier::external_body]
pub struct ExBytesRegex(regex::bytes::Regex);

/// The characters read from `bytes` when they are valid UTF-8.
pub uninterp spec fn utf8_view(bytes: Seq<u8>) -> Option<Seq<char>>;

/// Whether `regex::bytes::Regex::new` accepts `pattern`.
pub uninterp spec fn bytes_regex_ok(pattern: Seq<char>) -> bool;

/// The pattern a byte regex was built from.
pub uninterp spec fn bytes_source(re: regex::bytes::Regex) -> Seq<char>;

/// Whether the byte regex built from `pattern` finds a match in `hay`.
pub uninterp spec fn bytes_regex_match(pattern: Seq<char>, hay: Seq<u8>) -> bool;

/// Relies on core::str::from_utf8: it returns `Ok` exactly on valid UTF-8,
/// and the characters read depend on the bytes alone.
#[verifier::external_body]
fn utf8_str(bytes: &Vec<u8>) -> (r: Option<&str>)
    ensures
        r is Some <==> utf8_view(bytes@) is Some,
        r matches Some(s) ==> utf8_view(bytes@) == Some(s@),
{
    std::str::from_utf8(bytes).ok()
}

/// Relies on regex::bytes::Regex::new: it returns `Ok` exactly when the
/// pattern parses, and the built regex holds that pattern.
#[verifier::external_body]
fn bytes_regex_new(pattern: &str) -> (r: Option<regex::bytes::Regex>)
    ensures
        r is Some <==> bytes_regex_ok(pattern@),
        r matches Some(re) ==> bytes_source(re) == pattern@,
{
    regex::bytes::Regex::new(pattern).ok()
}

/// Relies on regex::bytes::Regex::captures: whether a compiled pattern
/// matches somewhere in a byte haystack depends on the pattern and the bytes
/// alone.
#[verifier::external_body]
fn bytes_regex_finds(re: &regex::bytes::Regex, hay: &Vec<u8>) -> (r: bool)
    ensures
        r == bytes_regex_match(bytes_source(*re), hay@),
{
    re.captures(hay).is_some()
}

/// Whether a rule's raw-byte pattern matches a response: the pattern bytes
/// must be UTF-8, the pattern must parse, and the built regex must find a
/// match. A rule failing the first two steps matches nothing.
pub open spec fn rule_matches(pattern: Seq<u8>, hay: Seq<u8>) -> bool {
    match utf8_view(pattern) {
        Some(p) => bytes_regex_ok(p) && bytes_regex_match(p, hay),
        None => false,
    }
}

/// The service names of the rules among the first `n` of `rules` whose
/// pattern matches `response`, in rule order.
pub open spec fn matching_services(rules: Seq<Matches>, response: Seq<u8>, n: int) -> Seq<Seq<char>>
    decreases n,
{
    if n <= 0 {
        Seq::empty()
    } else if rule_matches(rules[n - 1].pattern@, response) {
        matching_services(rules, response, n - 1).push(rules[n - 1].service@)
    } else {
        matching_services(rules, response, n - 1)
    }
}

impl NmapFingerPrintLib {
    /// The service name a single rule reports for `text`, when its pattern
    /// matches.
    pub fn rule_service(&self, rule: &Matches, text: &Vec<u8>) -> (r: Option<String>)
        ensures
            r is Some <==> rule_matches(rule.pattern@, text@),
            r matches Some(s) ==> s@ == rule.service@,
    {
        match utf8_str(&rule.pattern) {
            Some(pattern_str) => match bytes_regex_new(pattern_str) {
                Some(re) => {
                    if bytes_regex_finds(&re, text) {
                        Some(rule.service.clone())
                    } else {
                        None
                    }
                },
                None => None,
            },
            None => None,
        }
    }

    /// The service name a single rule reports for `text`: the rule's service
    /// when its pattern matches, the empty string otherwise.
    pub fn what_server(&self, rule: &Matches, text: &Vec<u8>) -> (r: String)
        ensures
            rule_matches(rule.pattern@, text@) ==> r@ == rule.service@,
            !rule_matches(rule.pattern@, text@) ==> r@ == Seq::<char>::empty(),
    {
        match self.rule_service(rule, text) {
            Some(s) => s,
            None => String::new(),
        }
    }

    /// Holds `response` against every rule of this probe and collects the
    /// service names of all matching rules, in rule order. Rules never
    /// short-circuit: a probe may report several services at once.
    pub fn match_rules(&self, response: &Vec<u8>) -> (r: Vec<String>)
        ensures
            views_of(r@) == matching_services(
                self.matches@,
                response@,
                self.matches@.len() as int,
            ),
    {
        let mut server_name: Vec<String> = Vec::new();
        let mut i: usize = 0;
        while i < self.matches.len()
            invariant
                0 <= i <= self.matches@.len(),
                views_of(server_name@) == matching_services(self.matches@, response@, i as int),
            decreases self.matches@.len() - i,
        {
            let ghost prev = views_of(server_name@);
            let rule = &self.matches[i];
            match self.rule_service(rule, response) {
                Some(result) => {
                    let ghost rv = result@;
                    server_name.push(result);
                    proof {
                        assert(views_of(server_name@) =~= prev.push(rv));
                    }
                },
                None => {},
            }
            i += 1;
        }
        server_name
    }
}

} // verus!
