//! Choosing the serial port of the NanoD from the ports the system lists.
use vstd::prelude::*;

use super::constants::{is_nanod_usb_id, nanod_pids, USB_PID_PRIMARY, USB_VID};
use crate::text::str_eq;

verus! {

/// USB identity of a serial port.
#[derive(Debug, PartialEq, Eq)]
pub struct UsbInfo {
    pub vid: u16,
    pub pid: u16,
    pub serial_number: Option<String>,
    pub manufacturer: Option<String>,
    pub product: Option<String>,
}

fn clone_text(o: &Option<String>) -> (c: Option<String>)
    ensures
        c == *o,
{
    match o {
        Some(s) => Some(s.clone()),
        None => None,
    }
}

impl Clone for UsbInfo {
    fn clone(&self) -> (c: Self)
        ensures
            c == *self,
    {
        UsbInfo {
            vid: self.vid,
            pid: self.pid,
            serial_number: clone_text(&self.serial_number),
            manufacturer: clone_text(&self.manufacturer),
            product: clone_text(&self.product),
        }
    }
}

/// A serial port as the system lists it: its name and, for a USB port,
/// its USB identity.
#[derive(Debug, Clone, PartialEq, Eq)]
pub struct PortEntry {
    pub name: String,
    pub usb: Option<UsbInfo>,
}

/// The port is a USB port of a NanoD.
pub open spec fn is_nanod_port(p: PortEntry) -> bool {
    p.usb matches Some(u) && u.vid == USB_VID && nanod_pids().contains(u.pid)
}

/// The port names joined with `", "`.
pub open spec fn joined_names(ports: Seq<PortEntry>) -> Seq<char>
    decreases ports.len(),
{
    if ports.len() == 0 {
        Seq::empty()
    } else if ports.len() == 1 {
        ports[0].name@
    } else {
        joined_names(ports.drop_last()) + ", "@ + ports.last().name@
    }
}

/// The error when no NanoD is among the ports.
pub open spec fn not_found_message(ports: Seq<PortEntry>) -> Seq<char> {
    "NanoD not found. Is the device connected?\nAvailable ports: "@ + joined_names(ports)
}

/// Position of the first NanoD among the ports.
pub open spec fn first_nanod(ports: Seq<PortEntry>) -> Option<int>
    decreases ports.len(),
{
    if ports.len() == 0 {
        None
    } else if is_nanod_port(ports[0]) {
        Some(0)
    } else {
        match first_nanod(ports.drop_first()) {
            Some(i) => Some(i + 1),
            None => None,
        }
    }
}

proof fn lemma_first_nanod(ports: Seq<PortEntry>)
    ensures
        match first_nanod(ports) {
            Some(i) => 0 <= i < ports.len() && is_nanod_port(ports[i]) && forall|j: int|
                0 <= j < i ==> !is_nanod_port(#[trigger] ports[j]),
            None => forall|j: int| 0 <= j < ports.len() ==> !is_nanod_port(#[trigger] ports[j]),
        },
    decreases ports.len(),
{
    if ports.len() > 0 {
        lemma_first_nanod(ports.drop_first());
        assert forall|j: int| 0 < j < ports.len() implies ports[j] == ports.drop_first()[j - 1] by {}
    }
}

/// The answer of the NanoD search on these ports: the name and USB identity
/// of the first NanoD, or the not-found error listing every port.
pub open spec fn finds_nanod(ports: Seq<PortEntry>, r: Result<(String, UsbInfo), String>) -> bool {
    match first_nanod(ports) {
        Some(i) => r matches Ok(found) && found.0@ == ports[i].name@ && ports[i].usb == Some(found.1),
        None => r matches Err(msg) && msg@ == not_found_message(ports),
    }
}

/// Finds the first port that is a NanoD by its USB vendor and product ID.
pub fn find_nanod_port(ports: &[PortEntry]) -> (r: Result<(String, UsbInfo), String>)
    ensures
        finds_nanod(ports@, r),
{
    let mut i: usize = 0;
    while i < ports.len()
        invariant
            0 <= i <= ports@.len(),
            forall|j: int| 0 <= j < i ==> !is_nanod_port(#[trigger] ports@[j]),
        decreases ports@.len() - i,
    {
        if let Some(usb) = &ports[i].usb {
            if is_nanod_usb_id(usb.vid, usb.pid) {
                proof {
                    lemma_first_nanod(ports@);
                    match first_nanod(ports@) {
                        Some(k) => {
                            assert(k == i) by {
                                if k < i {
                                } else if k > i {
                                    assert(!is_nanod_port(ports@[i as int]));
                                }
                            }
                        },
                        None => {
                            assert(!is_nanod_port(ports@[i as int]));
                        },
                    }
                }
                let name = ports[i].name.clone();
                return Ok((name, usb.clone()));
            }
        }
        i = i + 1;
    }
    proof {
        lemma_first_nanod(ports@);
        match first_nanod(ports@) {
            Some(k) => {
                assert(!is_nanod_port(ports@[k]));
            },
            None => {},
        }
    }
    let mut msg = String::from_str("NanoD not found. Is the device connected?\nAvailable ports: ");
    let mut k: usize = 0;
    let ghost prefix = msg@;
    while k < ports.len()
        invariant
            0 <= k <= ports@.len(),
            msg@ == prefix + joined_names(ports@.take(k as int)),
        decreases ports@.len() - k,
    {
        if k > 0 {
            msg.append(", ");
        }
        msg.append(ports[k].name.as_str());
        proof {
            let t = ports@.take(k as int + 1);
            assert(t.drop_last() =~= ports@.take(k as int));
            assert(t.last() == ports@[k as int]);
            if k == 0 {
                assert(joined_names(ports@.take(0)) =~= Seq::<char>::empty());
            }
        }
        k = k + 1;
    }
    assert(ports@.take(ports@.len() as int) =~= ports@);
    Err(msg)
}

/// The USB identity assumed for a named port that is not listed as a USB
/// port: the NanoD's vendor ID and primary product ID, nothing else known.
pub open spec fn assumed_usb() -> UsbInfo {
    UsbInfo { vid: USB_VID, pid: USB_PID_PRIMARY, serial_number: None, manufacturer: None, product: None }
}

/// Resolves the port to use. A port named by the user is taken as given,
/// with the USB identity of the first listed USB port of that name, or the
/// assumed NanoD identity; without a name the NanoD is searched for.
pub fn resolve_port(port: Option<&str>, ports: &[PortEntry]) -> (r: Result<(String, UsbInfo), String>)
    ensures
        port is None ==> finds_nanod(ports@, r),
        port matches Some(p) ==> (r matches Ok((name, usb)) && name@ == p@ && (match first_usb_named(
            ports@,
            p@,
        ) {
            Some(u) => usb == u,
            None => usb == assumed_usb(),
        })),
{
    match port {
        None => find_nanod_port(ports),
        Some(p) => {
            let mut i: usize = 0;
            assert(ports@.skip(0) =~= ports@);
            while i < ports.len()
                invariant
                    port == Some(p),
                    0 <= i <= ports@.len(),
                    first_usb_named(ports@, p@) == first_usb_named(ports@.skip(i as int), p@),
                decreases ports@.len() - i,
            {
                proof {
                    lemma_first_usb_named_step(ports@.skip(i as int), p@);
                    assert(ports@.skip(i as int).drop_first() =~= ports@.skip(i as int + 1));
                }
                if str_eq(ports[i].name.as_str(), p) {
                    if let Some(usb) = &ports[i].usb {
                        return Ok((p.to_string(), usb.clone()));
                    }
                }
                i = i + 1;
            }
            Ok(
                (
                    p.to_string(),
                    UsbInfo {
                        vid: USB_VID,
                        pid: USB_PID_PRIMARY,
                        serial_number: None,
                        manufacturer: None,
                        product: None,
                    },
                ),
            )
        },
    }
}

/// The USB identity of the first listed USB port named `name`.
pub open spec fn first_usb_named(ports: Seq<PortEntry>, name: Seq<char>) -> Option<UsbInfo>
    decreases ports.len(),
{
    if ports.len() == 0 {
        None
    } else if ports[0].name@ == name && ports[0].usb is Some {
        ports[0].usb
    } else {
        first_usb_named(ports.drop_first(), name)
    }
}

proof fn lemma_first_usb_named_step(ports: Seq<PortEntry>, name: Seq<char>)
    requires
        ports.len() > 0,
    ensures
        first_usb_named(ports, name) == (if ports[0].name@ == name && ports[0].usb is Some {
            ports[0].usb
        } else {
            first_usb_named(ports.drop_first(), name)
        }),
{
}

} // verus!
