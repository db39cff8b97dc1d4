//! Baud rates and the serial ports on which an RF Explorer can be found.
use vstd::prelude::*;

use crate::error::Error;

verus! {

/// The baud rate (bits per second) at which an RF Explorer talks at first when
/// its fast default is not used.
pub const SLOW_BAUD_RATE: u32 = 2_400;

/// The RF Explorer's fast default baud rate.
pub const FAST_BAUD_RATE: u32 = 500_000;

/// The character by which the RF Explorer names the baud rate `bps`, if it supports it.
pub open spec fn baud_code(bps: u32) -> Option<u8> {
    if bps == 1_200 {
        Some(49u8)
    } else if bps == 2_400 {
        Some(50u8)
    } else if bps == 4_800 {
        Some(51u8)
    } else if bps == 9_600 {
        Some(52u8)
    } else if bps == 19_200 {
        Some(53u8)
    } else if bps == 38_400 {
        Some(54u8)
    } else if bps == 57_600 {
        Some(55u8)
    } else if bps == 115_200 {
        Some(56u8)
    } else if bps == 500_000 {
        Some(48u8)
    } else {
        None
    }
}

/// The character by which the RF Explorer names the baud rate `baud_rate`;
/// an `InvalidInput` error for a rate that it does not support.
pub fn bps_to_code(baud_rate: u32) -> (r: Result<u8, Error>)
    ensures
        baud_code(baud_rate) matches Some(c) ==> (r matches Ok(code) && code == c),
        baud_code(baud_rate) is None ==> (r matches Err(Error::InvalidInput(message)) && message@
            == "Invalid baud rate"@),
{
    match baud_rate {
        1_200 => Ok(49u8),
        2_400 => Ok(50u8),
        4_800 => Ok(51u8),
        9_600 => Ok(52u8),
        19_200 => Ok(53u8),
        38_400 => Ok(54u8),
        57_600 => Ok(55u8),
        115_200 => Ok(56u8),
        500_000 => Ok(48u8),
        _ => Err(Error::InvalidInput("Invalid baud rate".to_owned())),
    }
}

/// A baud rate that the RF Explorer supports, with the character that names it.
#[derive(Debug, Clone, Copy, PartialEq, Eq, Hash)]
pub struct BaudRate {
    bps: u32,
    code: u8,
}

impl View for BaudRate {
    /// The rate in bits per second, and its character.
    type V = (u32, u8);

    closed spec fn view(&self) -> (u32, u8) {
        (self.bps, self.code)
    }
}

impl BaudRate {
    #[verifier::type_invariant]
    spec fn well_formed(self) -> bool {
        baud_code(self.bps) == Some(self.code)
    }

    /// The rate in bits per second.
    pub fn bps(&self) -> (bps: u32)
        ensures
            bps == self@.0,
            baud_code(bps) == Some(self@.1),
    {
        proof {
            use_type_invariant(self);
        }
        self.bps
    }

    /// The character that names the rate.
    pub fn code(&self) -> (code: u8)
        ensures
            code == self@.1,
            baud_code(self@.0) == Some(code),
    {
        proof {
            use_type_invariant(self);
        }
        self.code
    }

    /// The baud rate of `bps` bits per second; an `InvalidInput` error for a
    /// rate that the RF Explorer does not support.
    pub fn try_from(bps: u32) -> (r: Result<BaudRate, Error>)
        ensures
            baud_code(bps) matches Some(c) ==> (r matches Ok(b) && b@ == (bps, c)),
            baud_code(bps) is None ==> (r matches Err(Error::InvalidInput(message))
                && message@ == "Invalid baud rate"@),
    {
        let code = bps_to_code(bps)?;
        Ok(BaudRate { bps, code })
    }

    /// The RF Explorer's default: 500 kbps.
    pub fn default() -> (b: BaudRate)
        ensures
            b@ == (500_000u32, 48u8),
    {
        BaudRate { bps: 500_000, code: 48u8 }
    }
}

/// What the library needs to know of a serial port: its name and, for a USB
/// port, its vendor and product IDs.
#[derive(Debug, Clone, PartialEq, Eq)]
pub struct SerialPortEntry {
    /// The name of the port.
    pub port_name: String,
    /// The USB vendor and product IDs, for a USB port.
    pub usb_ids: Option<(u16, u16)>,
}

/// Silicon Labs' USB vendor ID.
pub const SILABS_VID: u16 = 4_292;

/// The USB product ID of the Silicon Labs CP210x USB-to-serial bridge.
pub const CP210X_PID: u16 = 60_000;

/// True when the port is a Silicon Labs CP210x USB bridge, as in an RF Explorer.
pub open spec fn spec_is_silabs_cp210x(port: SerialPortEntry) -> bool {
    port.usb_ids == Some((SILABS_VID, CP210X_PID))
}

/// The names of the ports among `ports` that are CP210x bridges, in order.
pub open spec fn cp210x_port_names(ports: Seq<SerialPortEntry>) -> Seq<Seq<char>>
    decreases ports.len(),
{
    if ports.len() == 0 {
        seq![]
    } else {
        let rest = cp210x_port_names(ports.drop_last());
        if spec_is_silabs_cp210x(ports.last()) {
            rest.push(ports.last().port_name@)
        } else {
            rest
        }
    }
}

/// True when the port has the VID and PID of an RF Explorer.
pub fn is_silabs_cp210x(port: &SerialPortEntry) -> (r: bool)
    ensures
        r == spec_is_silabs_cp210x(*port),
{
    match port.usb_ids {
        Some((vid, pid)) => vid == SILABS_VID && pid == CP210X_PID,
        None => false,
    }
}

/// Returns the names of the serial ports, among `ports`, with the VID and PID of an RF Explorer.
pub fn port_names(ports: &Vec<SerialPortEntry>) -> (names: Vec<String>)
    ensures
        names@.len() == cp210x_port_names(ports@).len(),
        forall|i: int|
            0 <= i < names@.len() ==> (#[trigger] names@[i])@ == cp210x_port_names(ports@)[i],
{
    let mut names: Vec<String> = Vec::new();
    let mut i: usize = 0;
    while i < ports.len()
        invariant
            0 <= i <= ports@.len(),
            names@.len() == cp210x_port_names(ports@.take(i as int)).len(),
            forall|k: int|
                0 <= k < names@.len() ==> (#[trigger] names@[k])@ == cp210x_port_names(
                    ports@.take(i as int),
                )[k],
        decreases ports@.len() - i,
    {
        assert(ports@.take(i + 1).drop_last() =~= ports@.take(i as int));
        let port = &ports[i];
        if is_silabs_cp210x(port) {
            names.push(port.port_name.clone());
        }
        i = i + 1;
    }
    assert(ports@.take(i as int) =~= ports@);
    names
}

/// The ports and baud rates to try, in order, when connecting to any RF
/// Explorer: each CP210x port among `ports` (in their order) first at the
/// fast default baud rate, then at the slow one.
pub fn connection_attempts(ports: &Vec<SerialPortEntry>) -> (attempts: Vec<(String, u32)>)
    ensures
        attempts@.len() == 2 * cp210x_port_names(ports@).len(),
        forall|i: int|
            0 <= i < cp210x_port_names(ports@).len() ==> {
                &&& (#[trigger] attempts@[2 * i]).0@ == cp210x_port_names(ports@)[i]
                &&& attempts@[2 * i].1 == FAST_BAUD_RATE
                &&& attempts@[2 * i + 1].0@ == cp210x_port_names(ports@)[i]
                &&& attempts@[2 * i + 1].1 == SLOW_BAUD_RATE
            },
{
    let names = port_names(ports);
    let mut attempts: Vec<(String, u32)> = Vec::new();
    let mut j: usize = 0;
    while j < names.len()
        invariant
            0 <= j <= names@.len(),
            names@.len() == cp210x_port_names(ports@).len(),
            forall|k: int|
                0 <= k < names@.len() ==> (#[trigger] names@[k])@ == cp210x_port_names(ports@)[k],
            attempts@.len() == 2 * j,
            forall|k: int|
                0 <= k < j ==> {
                    &&& (#[trigger] attempts@[2 * k]).0@ == names@[k]@
                    &&& attempts@[2 * k].1 == FAST_BAUD_RATE
                    &&& attempts@[2 * k + 1].0@ == names@[k]@
                    &&& attempts@[2 * k + 1].1 == SLOW_BAUD_RATE
                },
        decreases names@.len() - j,
    {
        let ghost before = attempts@;
        let fast = names[j].clone();
        let slow = names[j].clone();
        attempts.push((fast, FAST_BAUD_RATE));
        attempts.push((slow, SLOW_BAUD_RATE));
        proof {
            assert forall|k: int| 0 <= k < j + 1 implies {
                &&& (#[trigger] attempts@[2 * k]).0@ == names@[k]@
                &&& attempts@[2 * k].1 == FAST_BAUD_RATE
                &&& attempts@[2 * k + 1].0@ == names@[k]@
                &&& attempts@[2 * k + 1].1 == SLOW_BAUD_RATE
            } by {
                if k < j {
                    assert(attempts@[2 * k] == before[2 * k]);
                    assert(attempts@[2 * k + 1] == before[2 * k + 1]);
                }
            }
        }
        j = j + 1;
    }
    attempts
}

/// The index of the first port among `ports` named `name`, if any.
pub fn find_port(ports: &Vec<SerialPortEntry>, name: &String) -> (r: Option<usize>)
    ensures
        r matches Some(i) ==> i < ports@.len() && ports@[i as int].port_name@ == name@ && forall|
            k: int,
        | 0 <= k < i ==> (#[trigger] ports@[k]).port_name@ != name@,
        r is None ==> forall|k: int|
            0 <= k < ports@.len() ==> (#[trigger] ports@[k]).port_name@ != name@,
{
    let mut i: usize = 0;
    while i < ports.len()
        invariant
            0 <= i <= ports@.len(),
            forall|k: int| 0 <= k < i ==> (#[trigger] ports@[k]).port_name@ != name@,
        decreases ports@.len() - i,
    {
        if ports[i].port_name == *name {
            return Some(i);
        }
        i = i + 1;
    }
    None
}

/// Checks if a driver for the RF Explorer is installed, given the outcome of
/// each of the platform's probes for it (a driver query, or a look for a
/// driver extension): it is, when any probe found it.
pub fn is_driver_installed(probes: &Vec<bool>) -> (r: bool)
    ensures
        r == exists|i: int| 0 <= i < probes@.len() && #[trigger] probes@[i],
{
    let mut i: usize = 0;
    while i < probes.len()
        invariant
            0 <= i <= probes@.len(),
            forall|k: int| 0 <= k < i ==> !#[trigger] probes@[k],
        decreases probes@.len() - i,
    {
        if probes[i] {
            return true;
        }
        i = i + 1;
    }
    false
}

/// The device's codes for the baud rates: the characters `1` to `8` for
/// 1200, 2400, 4800, 9600, 19200, 38400, 57600 and 115200 bps, and `0` for
/// 500000 bps; no other rate has a code, and the slow and fast default rates
/// are 2400 and 500000 bps.
pub proof fn lemma_baud_rate_codes(bps: u32)
    ensures
        baud_code(bps) == (if bps == 1_200 {
            Some(49u8)
        } else if bps == 2_400 {
            Some(50u8)
        } else if bps == 4_800 {
            Some(51u8)
        } else if bps == 9_600 {
            Some(52u8)
        } else if bps == 19_200 {
            Some(53u8)
        } else if bps == 38_400 {
            Some(54u8)
        } else if bps == 57_600 {
            Some(55u8)
        } else if bps == 115_200 {
            Some(56u8)
        } else if bps == 500_000 {
            Some(48u8)
        } else {
            None
        }),
        SLOW_BAUD_RATE == 2_400,
        FAST_BAUD_RATE == 500_000,
{
}

} // verus!
