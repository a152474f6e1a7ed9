//! Device-name matching: a set of name patterns, compiled once at startup
//! and handed to the enumeration step, picks the capture device out of the
//! available ones.

use vstd::prelude::*;

use crate::errors::ConfigError;

verus! {

#[verifier::external_type_specification]
#[verifier::external_body]
pub struct ExRegexSet(regex::RegexSet);

#[verifier::external_type_specification]
#[verifier::external_body]
pub struct ExRegexError(regex::Error);

/// The patterns a regex set holds, as `RegexSet::new` compiles them with
/// its default configuration.
pub uninterp spec fn regex_set_patterns(s: regex::RegexSet) -> Seq<Seq<char>>;

/// Whether at least one of the patterns, compiled with the default
/// configuration, matches the text: a function of the patterns and the
/// text alone.
pub uninterp spec fn regex_set_match(patterns: Seq<Seq<char>>, text: Seq<char>) -> bool;

/// Whether the patterns all compile as regular expressions under the
/// default configuration: a function of the patterns alone.
pub uninterp spec fn regex_patterns_ok(patterns: Seq<Seq<char>>) -> bool;

/// Relies on regex::RegexSet::new: compiles the given patterns into a set
/// with the default configuration, failing iff some pattern is not a valid
/// regular expression.
#[verifier::external_body]
fn regex_set_new(patterns: &Vec<String>) -> (r: Result<regex::RegexSet, regex::Error>)
    ensures
        r is Ok <==> regex_patterns_ok(patterns@.map_values(|p: String| p@)),
        r is Ok ==> regex_set_patterns(r->Ok_0) == patterns@.map_values(|p: String| p@),
{
    regex::RegexSet::new(patterns.iter().map(|p| p.as_str()))
}

/// Relies on regex::RegexSet::is_match: true iff at least one regex in the
/// set matches the haystack, a pure function of the set's patterns and the
/// haystack.
#[verifier::external_body]
fn regex_set_is_match(set: &regex::RegexSet, text: &str) -> (r: bool)
    ensures
        r == regex_set_match(regex_set_patterns(*set), text@),
{
    set.is_match(text)
}

/// A compiled set of device-name patterns: a configuration value built once
/// at startup and passed into device enumeration.
pub struct DeviceMatcher {
    set: regex::RegexSet,
}

impl DeviceMatcher {
    /// The patterns this matcher was built from.
    pub closed spec fn patterns(self) -> Seq<Seq<char>> {
        regex_set_patterns(self.set)
    }

    /// Compile a matcher from name patterns; fails when some pattern is not
    /// a valid regular expression.
    pub fn new(patterns: &Vec<String>) -> (r: Result<DeviceMatcher, ConfigError>)
        ensures
            r is Ok <==> regex_patterns_ok(patterns@.map_values(|p: String| p@)),
            r is Ok ==> r->Ok_0.patterns() == patterns@.map_values(|p: String| p@),
            r is Err ==> r->Err_0 == ConfigError::InvalidPattern,
    {
        match regex_set_new(patterns) {
            Ok(set) => Ok(DeviceMatcher { set }),
            Err(_) => Err(ConfigError::InvalidPattern),
        }
    }

    /// Whether some pattern of this matcher matches the device name.
    pub fn matches(&self, name: &str) -> (r: bool)
        ensures
            r == regex_set_match(self.patterns(), name@),
    {
        regex_set_is_match(&self.set, name)
    }

    /// The first device whose human-readable name some pattern matches:
    /// the least matching index, or nothing when no name matches.
    pub fn find_first_match(&self, names: &Vec<String>) -> (r: Option<usize>)
        ensures
            match r {
                Some(i) => i < names@.len() && regex_set_match(self.patterns(), names@[i as int]@)
                    && forall|j: int|
                    0 <= j < i ==> !regex_set_match(self.patterns(), names@[j]@),
                None => forall|j: int|
                    0 <= j < names@.len() ==> !regex_set_match(self.patterns(), names@[j]@),
            },
    {
        let n = names.len();
        let mut i: usize = 0;
        while i < n
            invariant
                i <= n,
                n == names@.len(),
                forall|j: int| 0 <= j < i ==> !regex_set_match(self.patterns(), names@[j]@),
            decreases n - i,
        {
            if self.matches(names[i].as_str()) {
                return Some(i);
            }
            i = i + 1;
        }
        None
    }
}

} // verus!
