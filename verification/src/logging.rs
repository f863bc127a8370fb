//! The choice of the log filter.
//!
//! The filter comes from the directives that the environment gives, where
//! there are any and they can be used, and from a fixed default otherwise.

use crate::cuts::{cuts_fit, has_fitting_cuts, lemma_ascii_cuts_fit};
use crate::filter::{directives_valid, try_new_filter, ParsedFilter};
use vstd::prelude::*;

verus! {

/// The environment variable that holds the filter directives.
pub const FILTER_VARIABLE: &'static str = "RUST_LOG";

/// The directives used where the environment gives none that can be used:
/// this crate's events from level `info`, everything else from `warn`.
pub const DEFAULT_DIRECTIVES: &'static str = "pipeweld=info,warn";

/// Whether directives from the environment are used: the parser must be
/// able to cut them where it counted, and accept them.
pub open spec fn directives_usable(directives: Seq<char>) -> bool {
    cuts_fit(directives) && directives_valid(directives)
}

/// The directives that the filter is made from, given what the environment
/// holds.
pub open spec fn chosen_directives(rust_log: Option<Seq<char>>) -> Seq<char> {
    match rust_log {
        Some(directives) => if directives_usable(directives) {
            directives
        } else {
            DEFAULT_DIRECTIVES@
        },
        None => DEFAULT_DIRECTIVES@,
    }
}

/// The default directives were rejected as invalid.
#[derive(Debug, Clone, Copy, PartialEq, Eq, Structural)]
pub struct DefaultFilterError;

/// Chooses the filter directives: those of `rust_log` where they are
/// present, readable and valid, the default ones otherwise.
pub fn filter_directives(rust_log: Option<&str>) -> (directives: String)
    ensures
        directives@ == chosen_directives(
            match rust_log {
                Some(text) => Some(text@),
                None => None,
            },
        ),
{
    match rust_log {
        Some(text) => {
            if has_fitting_cuts(text) && try_new_filter(text).is_ok() {
                text.to_owned()
            } else {
                DEFAULT_DIRECTIVES.to_owned()
            }
        },
        None => DEFAULT_DIRECTIVES.to_owned(),
    }
}

/// Makes the log filter from the chosen directives. This fails only where
/// the default directives are needed and are rejected.
pub fn env_filter(rust_log: Option<&str>) -> (filter: Result<ParsedFilter, DefaultFilterError>)
    ensures
        filter.is_ok() <==> directives_valid(
            chosen_directives(
                match rust_log {
                    Some(text) => Some(text@),
                    None => None,
                },
            ),
        ),
        filter matches Ok(parsed) ==> parsed.source() == chosen_directives(
            match rust_log {
                Some(text) => Some(text@),
                None => None,
            },
        ),
{
    let directives = filter_directives(rust_log);
    proof {
        lemma_default_cuts_fit();
    }
    match try_new_filter(directives.as_str()) {
        Ok(parsed) => Ok(parsed),
        Err(_) => Err(DefaultFilterError),
    }
}

/// The parser can cut the default directives where it counted.
proof fn lemma_default_cuts_fit()
    ensures
        cuts_fit(DEFAULT_DIRECTIVES@),
{
    reveal_strlit("pipeweld=info,warn");
    lemma_ascii_cuts_fit(DEFAULT_DIRECTIVES@);
}

} // verus!
