//! Deriving the namespaced unit name and the on-disk definition path from
//! a logical service name: fixed, deterministic string transformations.

use vstd::prelude::*;
use vstd::string::StringExecFns;

verus! {

/// The namespaced unit name of a logical service name: the fixed
/// namespace suffix `.ser.service` appended.
pub open spec fn spec_full_service_name(name: Seq<char>) -> Seq<char> {
    name + ".ser.service"@
}

/// The definition path of a namespaced unit name: under the fixed unit
/// directory `/etc/systemd/system/`.
pub open spec fn spec_unit_file_path(full_name: Seq<char>) -> Seq<char> {
    "/etc/systemd/system/"@ + full_name
}

/// The namespaced unit name for a logical service name.
pub fn full_service_name(name: &str) -> (r: String)
    ensures
        r@ == spec_full_service_name(name@),
{
    let mut s = name.to_owned();
    s.append(".ser.service");
    s
}

/// The absolute path of the unit file for a namespaced unit name.
pub fn unit_file_path(full_name: &str) -> (r: String)
    ensures
        r@ == spec_unit_file_path(full_name@),
{
    let mut s = "/etc/systemd/system/".to_owned();
    s.append(full_name);
    s
}

} // verus!
