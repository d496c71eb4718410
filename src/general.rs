use vstd::prelude::*;
use vstd::string::StringExecFns;

use crate::state::Slot;

verus! {

/// time_tz's time zone, carried through unopened.
#[verifier::external_type_specification]
#[verifier::external_body]
pub struct ExTz(time_tz::Tz);

/// The `[general]` section of the configuration.
pub struct GeneralConfig {
    pub listen: String,
    pub timezone: String,
}

/// Whether the compiled-in time zone database knows `name`.
pub uninterp spec fn is_known_timezone(name: Seq<char>) -> bool;

/// Relies on `time_tz::timezones::get_by_name`: a lookup by name in the time zone
/// database built into the crate, which has an entry for a name or has none.
#[verifier::external_body]
fn find_timezone(name: &str) -> (r: Option<&'static time_tz::Tz>)
    ensures
        r is Some <==> is_known_timezone(name@),
{
    time_tz::timezones::get_by_name(name)
}

/// The error text for an unknown time zone name.
pub open spec fn invalid_timezone_message(name: Seq<char>) -> Seq<char> {
    "Invalid timezone configuration: "@ + name
}

/// The error text for a second write of the time zone.
pub open spec fn timezone_already_set_message() -> Seq<char> {
    "Failed to set OnceLock<&Tz>"@
}

/// Writes to `slot` the zone that a lookup of `name` found. A failed lookup, or a slot
/// already written, is an error and leaves `slot` as it was.
pub fn store_timezone(
    name: &str,
    found: Option<&'static time_tz::Tz>,
    slot: &mut Slot<&'static time_tz::Tz>,
) -> (r: Result<(), String>)
    ensures
        found matches Some(tz) ==> (old(slot)@ is None ==> (r is Ok && final(slot)@ == Some(tz))),
        found is None ==> (r matches Err(e) && e@ == invalid_timezone_message(name@)),
        found is Some && old(slot)@ is Some ==> (r matches Err(e) && e@
            == timezone_already_set_message()),
        !(r is Ok) ==> final(slot)@ == old(slot)@,
{
    match found {
        None => Err(String::from_str("Invalid timezone configuration: ").concat(name)),
        Some(tz) => match slot.set(tz) {
            Ok(()) => Ok(()),
            Err(_) => Err(String::from_str("Failed to set OnceLock<&Tz>")),
        },
    }
}

/// Resolves the configured time zone and writes it to `slot`.
/// An unknown name, or a slot already written, is an error and leaves `slot` as it was.
pub fn init_timezone(config: &GeneralConfig, slot: &mut Slot<&'static time_tz::Tz>) -> (r: Result<
    (),
    String,
>)
    ensures
        r is Ok <==> (is_known_timezone(config.timezone@) && old(slot)@ is None),
        r is Ok ==> final(slot)@ is Some,
        !is_known_timezone(config.timezone@) ==> (r matches Err(e) && e@
            == invalid_timezone_message(config.timezone@)),
        is_known_timezone(config.timezone@) && old(slot)@ is Some ==> (r matches Err(e) && e@
            == timezone_already_set_message()),
        !(r is Ok) ==> final(slot)@ == old(slot)@,
{
    let found = find_timezone(config.timezone.as_str());
    store_timezone(config.timezone.as_str(), found, slot)
}

} // verus!
