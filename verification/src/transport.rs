//! Trusted boundary to the bus library's identifier validation.
//!
//! A call request names its destination, object path, interface and member.
//! Whether each of those strings conforms to the bus's naming rules is
//! decided by the bus library itself; each check below is a pure function of
//! the characters alone, so its verdict is given a name that the
//! dispatcher's contracts can speak about.

use vstd::prelude::*;
use dbus::strings::BusName;
use dbus::strings::Interface;
use dbus::strings::Member;
use dbus::strings::Path;

verus! {

/// Whether a string is a valid bus (destination) name.
pub uninterp spec fn valid_bus_name(s: Seq<char>) -> bool;

/// Whether a string is a valid object path.
pub uninterp spec fn valid_object_path(s: Seq<char>) -> bool;

/// Whether a string is a valid interface name.
pub uninterp spec fn valid_interface_name(s: Seq<char>) -> bool;

/// Whether a string is a valid member (method or property) name.
pub uninterp spec fn valid_member_name(s: Seq<char>) -> bool;

/// Relies on dbus::strings::BusName::new: it accepts exactly the strings
/// that conform to the bus naming rules, a property of the characters alone.
#[verifier::external_body]
pub(crate) fn check_bus_name(s: &str) -> (r: bool)
    ensures
        r == valid_bus_name(s@),
{
    BusName::new(s).is_ok()
}

/// Relies on dbus::strings::Path::new: it accepts exactly the strings that
/// are well-formed object paths, a property of the characters alone.
#[verifier::external_body]
pub(crate) fn check_object_path(s: &str) -> (r: bool)
    ensures
        r == valid_object_path(s@),
{
    Path::new(s).is_ok()
}

/// Relies on dbus::strings::Interface::new: it accepts exactly the strings
/// that are well-formed interface names, a property of the characters alone.
#[verifier::external_body]
pub(crate) fn check_interface_name(s: &str) -> (r: bool)
    ensures
        r == valid_interface_name(s@),
{
    Interface::new(s).is_ok()
}

/// Relies on dbus::strings::Member::new: it accepts exactly the strings that
/// are well-formed member names, a property of the characters alone.
#[verifier::external_body]
pub(crate) fn check_member_name(s: &str) -> (r: bool)
    ensures
        r == valid_member_name(s@),
{
    Member::new(s).is_ok()
}

} // verus!
