//! Time zones and the wall-clock time shown in notifications.

use vstd::prelude::*;

verus! {

#[verifier::external_type_specification]
#[verifier::external_body]
pub struct ExTz(chrono_tz::Tz);

/// Whether the time-zone database knows a zone of this name.
pub uninterp spec fn zone_known(name: Seq<char>) -> bool;

/// Why the configuration cannot be used.
#[derive(Clone, Copy, Debug, PartialEq, Eq, Structural)]
pub enum ConfigError {
    /// The configured time-zone name is not an IANA zone.
    InvalidTimeZone,
}

/// Relies on chrono_tz's `FromStr` for `Tz`, a lookup of the name in the
/// compiled zone table.
#[verifier::external_body]
fn parse_zone(name: &str) -> (r: Option<chrono_tz::Tz>)
    ensures
        r is Some == zone_known(name@),
{
    name.parse::<chrono_tz::Tz>().ok()
}

/// Relies on chrono's `Utc::now`, `with_timezone` and `format`: the current
/// time in `zone`, written as year-month-day hour:minute. Nothing is known of
/// the text, which depends on the clock.
#[verifier::external_body]
pub(crate) fn local_time_text(zone: &chrono_tz::Tz) -> String {
    chrono::Utc::now().with_timezone(zone).format("%Y-%m-%d %H:%M").to_string()
}

/// The time zone of the given IANA name; an unknown name is a configuration
/// error.
pub fn load_time_zone(name: &str) -> (r: Result<chrono_tz::Tz, ConfigError>)
    ensures
        r is Ok == zone_known(name@),
        r is Err ==> r == Err::<chrono_tz::Tz, ConfigError>(ConfigError::InvalidTimeZone),
{
    match parse_zone(name) {
        Some(zone) => Ok(zone),
        None => Err(ConfigError::InvalidTimeZone),
    }
}

} // verus!
