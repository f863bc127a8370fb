//! The log filter of `tracing_subscriber`, as far as this library knows it.
//!
//! A filter is made from directives by a parser of many rules. Of the
//! parser it is known whether it accepts a text, of a filter which text it
//! came from, and nothing else.

use crate::cuts::cuts_fit;
use tracing_subscriber::filter::ParseError;
use tracing_subscriber::EnvFilter;
use vstd::prelude::*;

verus! {

/// `tracing_subscriber::EnvFilter`, a filter for log events. Nothing is
/// known of what a filter holds.
#[verifier::external_type_specification]
#[verifier::external_body]
pub struct ExEnvFilter(tracing_subscriber::EnvFilter);

/// `tracing_subscriber::filter::ParseError`, the error that invalid filter
/// directives give.
#[verifier::external_type_specification]
#[verifier::external_body]
pub struct ExParseError(tracing_subscriber::filter::ParseError);

/// Whether `EnvFilter::try_new` accepts `directives`.
pub uninterp spec fn directives_valid(directives: Seq<char>) -> bool;

/// A log filter together with the directives that it was parsed from.
#[derive(Debug)]
pub struct ParsedFilter {
    directives: String,
    filter: EnvFilter,
}

impl ParsedFilter {
    /// The directives that the filter was parsed from.
    pub closed spec fn source(&self) -> Seq<char> {
        self.directives@
    }

    /// The directives that the filter was parsed from.
    pub fn directives(&self) -> (directives: &String)
        ensures
            directives@ == self.source(),
    {
        &self.directives
    }

    /// The filter itself.
    pub fn into_filter(self) -> EnvFilter {
        self.filter
    }
}

/// Calls `EnvFilter::try_new`, which parses a comma-separated list of
/// directives, and hands the filter back together with the text that it
/// was given. Whether the parser accepts the directives depends on their
/// text alone. It panics where one of its cuts falls inside a character;
/// that text is left out.
#[verifier::external_body]
pub(crate) fn try_new_filter(directives: &str) -> (parsed: Result<ParsedFilter, ParseError>)
    requires
        cuts_fit(directives@),
    ensures
        parsed.is_ok() == directives_valid(directives@),
        parsed matches Ok(filter) ==> filter.source() == directives@,
{
    match EnvFilter::try_new(directives) {
        Ok(filter) => Ok(ParsedFilter { directives: directives.to_owned(), filter }),
        Err(error) => Err(error),
    }
}

} // verus!
