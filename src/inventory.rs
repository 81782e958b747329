//! Assembling the inventory from whichever backend answered.
use vstd::prelude::*;
use crate::mac::{is_mac_inventory, mac_error, mac_readable};
use crate::model::{Backend, Hardware, HardwareError, Mac};

verus! {

impl Hardware {
    /// The inventory that the backend's answers describe. Decoded
    /// management-layer responses always give one; the tools' text answers
    /// give one only where all of them can be read.
    pub fn build(source: &Backend) -> (r: Result<Hardware, HardwareError>)
        ensures
            source matches Backend::Windows(w) ==> r matches Ok(h) && h.c@ == w.c.list() && h.m@
                == w.m.list() && h.d@ == w.d.list(),
            source matches Backend::MacOs(a) ==> {
                &&& r is Ok <==> mac_readable(a.cores@, a.threads@, a.memory_report@, a.disk_json@)
                &&& r is Err ==> r->Err_0 == mac_error(
                    a.cores@,
                    a.threads@,
                    a.memory_report@,
                    a.disk_json@,
                )
                &&& r is Ok ==> is_mac_inventory(
                    r->Ok_0,
                    a.brand@,
                    a.cores@,
                    a.threads@,
                    a.memory_report@,
                    a.disk_json@,
                )
            },
    {
        match source {
            Backend::Windows(w) => Ok(w.total()),
            Backend::MacOs(a) => Mac::build(
                a.brand.as_str(),
                a.cores.as_str(),
                a.threads.as_str(),
                a.memory_report.as_str(),
                a.disk_json.as_str(),
            ),
        }
    }
}

} // verus!
