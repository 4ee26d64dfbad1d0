//! Discovery and decoding of uFPGA accelerator devices.
//!
//! The library resolves class-directory entries to device records
//! (bus location from the `device` link, backing node by device-number
//! identity) and decodes the on-device version tag and analog monitor
//! block.  It works on plain values: the surrounding glue reads the
//! directories, links and registers and hands their contents in, so
//! every decision and every decode is made here.

use vstd::prelude::*;

pub mod pci;
pub mod sysfs;
pub mod ufpga;

use sysfs::{ClassEntry, ClassEntryView, DevNode, DevNodeView, Device, SysfsLookupError};
use ufpga::{UFPGA, UFPGAView};

verus! {

/// The subcommands the management utility understands.
pub enum Cli {
    /// List attached uFPGA devices.
    List { verbose: bool },
    /// Flash the onboard memory of an attached uFPGA device.
    Flash,
    /// Manipulate I/O space of an attached uFPGA device.
    Poke,
    /// Reconfigure an attached uFPGA device from on-board memory.
    Reset,
}

/// The devices a class listing enumerates to: each entry that resolves
/// contributes one record, in listing order; an entry that fails
/// resolution is silently skipped.
pub open spec fn spec_enumerate(entries: Seq<ClassEntryView>, nodes: Seq<DevNodeView>) -> Seq<
    UFPGAView,
>
    decreases entries.len(),
{
    if entries.len() == 0 {
        Seq::empty()
    } else {
        let prefix = spec_enumerate(entries.drop_last(), nodes);
        match sysfs::spec_resolve_entry(entries.last(), nodes) {
            Some(d) => prefix.push(UFPGAView { device: d }),
            None => prefix,
        }
    }
}

/// Enumerate the devices of a class from its directory listing and the
/// device-node listing.  `listing` is `None` when the class directory
/// itself could not be read: that failure alone is fatal.  A per-entry
/// failure (broken link, unparsable number, no matching node) only
/// skips that entry; the absence of a device from the result is the
/// only signal.
pub fn enumerate_devices(listing: &Option<Vec<ClassEntry>>, nodes: &Vec<DevNode>) -> (r: Result<
    Vec<UFPGA>,
    SysfsLookupError,
>)
    ensures
        listing is None ==> r == Err::<Vec<UFPGA>, SysfsLookupError>(SysfsLookupError),
        listing matches Some(es) ==> (r matches Ok(out) && out.deep_view() == spec_enumerate(
            es.deep_view(),
            nodes.deep_view(),
        )),
{
    let es = match listing {
        Some(es) => es,
        None => return Err(SysfsLookupError),
    };
    let ghost ev = es.deep_view();
    let ghost nv = nodes.deep_view();
    let mut out: Vec<UFPGA> = Vec::new();
    let mut i: usize = 0;
    proof {
        assert(ev.subrange(0, 0) =~= Seq::<ClassEntryView>::empty());
        assert(out.deep_view() =~= Seq::<UFPGAView>::empty());
    }
    while i < es.len()
        invariant
            0 <= i <= es.len(),
            ev == es.deep_view(),
            nv == nodes.deep_view(),
            out.deep_view() == spec_enumerate(ev.subrange(0, i as int), nv),
        decreases es.len() - i,
    {
        let ghost prev = out.deep_view();
        match Device::read_device(&es[i], nodes) {
            Ok(device) => {
                out.push(UFPGA { device });
            },
            Err(_) => {},
        }
        proof {
            assert(ev.subrange(0, i + 1).drop_last() =~= ev.subrange(0, i as int));
            assert(ev.subrange(0, i + 1).last() == ev[i as int]);
            match sysfs::spec_resolve_entry(ev[i as int], nv) {
                Some(d) => {
                    assert(out.deep_view() =~= prev.push(UFPGAView { device: d }));
                },
                None => {},
            }
        }
        i += 1;
    }
    proof {
        assert(ev.subrange(0, es.len() as int) =~= ev);
    }
    Ok(out)
}

} // verus!
