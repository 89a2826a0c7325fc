//! The shared run configuration: the feed's source URL, the output
//! directory, and the optional include/exclude patterns that decide which
//! items are downloaded.
//!
//! An item's title must match the include pattern when one is configured,
//! and must not match the exclude pattern when one is configured. The
//! pattern language is that of the `regex` crate; matching is a search
//! anywhere in the title, not full-string equality.

use vstd::prelude::*;

verus! {

#[verifier::external_type_specification]
#[verifier::external_body]
pub struct ExRegex(regex::Regex);

#[verifier::external_type_specification]
#[verifier::external_body]
pub struct ExRegexError(regex::Error);

/// The pattern a compiled regular expression was built from, as
/// `regex::Regex::as_str` reports it.
pub uninterp spec fn regex_source(re: regex::Regex) -> Seq<char>;

/// Whether `regex::Regex::new` accepts a pattern: compilation succeeds or
/// fails as a function of the pattern alone.
pub uninterp spec fn regex_valid(pattern: Seq<char>) -> bool;

/// Whether a pattern matches anywhere in a text, as `regex::Regex::is_match`
/// decides it for a regex compiled from that pattern.
pub uninterp spec fn regex_match(pattern: Seq<char>, text: Seq<char>) -> bool;

/// Relies on `regex::Regex::new`: whether a pattern compiles depends on the
/// pattern alone (the crate's default size limit is fixed), and a compiled
/// regex keeps its original pattern, as `regex::Regex::as_str` shows.
#[verifier::external_body]
fn regex_new(pattern: &str) -> (r: Result<regex::Regex, regex::Error>)
    ensures
        r is Ok <==> regex_valid(pattern@),
        r matches Ok(re) ==> regex_source(re) == pattern@,
{
    regex::Regex::new(pattern)
}

/// Relies on `regex::Regex::is_match`: the result is a function of the
/// regex's pattern and the haystack alone.
#[verifier::external_body]
fn regex_is_match(re: &regex::Regex, text: &str) -> (r: bool)
    ensures
        r == regex_match(regex_source(*re), text@),
{
    re.is_match(text)
}

/// The filter rule: a title passes when it matches the include pattern (or
/// none is configured) and does not match the exclude pattern (when one is
/// configured).
pub open spec fn spec_is_allowed(
    include_pat: Option<Seq<char>>,
    exclude_pat: Option<Seq<char>>,
    title: Seq<char>,
) -> bool {
    &&& include_pat matches Some(p) ==> regex_match(p, title)
    &&& !(exclude_pat matches Some(p) && regex_match(p, title))
}

/// The configuration one run shares, read-only, with every download: the
/// feed URL, the output directory, and the compiled filter patterns.
pub struct AppConfig {
    feed_uri: String,
    output_path: String,
    option_include_regex: Option<regex::Regex>,
    option_exclude_regex: Option<regex::Regex>,
}

impl AppConfig {
    /// The feed URL the configuration was built with.
    pub closed spec fn feed(&self) -> Seq<char> {
        self.feed_uri@
    }

    /// The output directory the configuration was built with.
    pub closed spec fn output(&self) -> Seq<char> {
        self.output_path@
    }

    /// The include pattern, when one is configured.
    pub closed spec fn include_pattern(&self) -> Option<Seq<char>> {
        match self.option_include_regex {
            Some(re) => Some(regex_source(re)),
            None => None,
        }
    }

    /// The exclude pattern, when one is configured.
    pub closed spec fn exclude_pattern(&self) -> Option<Seq<char>> {
        match self.option_exclude_regex {
            Some(re) => Some(regex_source(re)),
            None => None,
        }
    }

    /// Constructs a configuration, compiling the given patterns. Succeeds
    /// exactly when every given pattern is a valid regular expression; the
    /// error of the first pattern that fails to compile is returned.
    pub fn new(
        feed_url: &str,
        output_path: &str,
        include_pattern: Option<&str>,
        exclude_pattern: Option<&str>,
    ) -> (r: Result<AppConfig, regex::Error>)
        ensures
            r is Ok <==> ((include_pattern matches Some(p) ==> regex_valid(p@))
                && (exclude_pattern matches Some(p) ==> regex_valid(p@))),
            r matches Ok(c) ==> {
                &&& c.feed() == feed_url@
                &&& c.output() == output_path@
                &&& (include_pattern matches Some(p) ==> c.include_pattern() == Some(p@))
                &&& (include_pattern is None ==> c.include_pattern() is None)
                &&& (exclude_pattern matches Some(p) ==> c.exclude_pattern() == Some(p@))
                &&& (exclude_pattern is None ==> c.exclude_pattern() is None)
            },
    {
        let option_include_regex = match include_pattern {
            Some(pattern) => match regex_new(pattern) {
                Ok(re) => Some(re),
                Err(e) => {
                    return Err(e);
                },
            },
            None => None,
        };

        let option_exclude_regex = match exclude_pattern {
            Some(pattern) => match regex_new(pattern) {
                Ok(re) => Some(re),
                Err(e) => {
                    return Err(e);
                },
            },
            None => None,
        };

        Ok(
            AppConfig {
                feed_uri: feed_url.to_owned(),
                output_path: output_path.to_owned(),
                option_include_regex,
                option_exclude_regex,
            },
        )
    }

    /// The feed URL to fetch, as given at construction.
    pub fn get_feed_uri(&self) -> (r: String)
        ensures
            r@ == self.feed(),
    {
        self.feed_uri.clone()
    }

    /// The directory downloads are written under, as given at construction.
    pub fn get_output_directory(&self) -> (r: String)
        ensures
            r@ == self.output(),
    {
        self.output_path.clone()
    }

    /// Decides whether a title passes the configured filter: it must match
    /// the include pattern when one is configured, and must not match the
    /// exclude pattern when one is configured.
    pub fn is_pattern_valid(&self, pattern: &str) -> (r: bool)
        ensures
            r == spec_is_allowed(self.include_pattern(), self.exclude_pattern(), pattern@),
    {
        let include_ok = if let Some(regex) = &self.option_include_regex {
            regex_is_match(regex, pattern)
        } else {
            true
        };

        let exclude_hit = if let Some(regex) = &self.option_exclude_regex {
            regex_is_match(regex, pattern)
        } else {
            false
        };

        include_ok && !exclude_hit
    }
}

} // verus!
