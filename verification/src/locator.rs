//! Device locator: picks the devices a run operates on. Enumerate-all mode
//! filters the live device list by the fixed vendor id; path mode maps a
//! device-tree node to its owning USB device and matches it against the live
//! list by bus number and address. The surrounding binary enumerates and
//! reads; the selection rules live here.

use vstd::prelude::*;

use crate::HUION_VENDOR_ID;

verus! {

/// What the locator reads off one live USB device: its position on the bus
/// and its vendor id, absent when the descriptor read failed during the
/// scan (such a device is treated as "not a match", never as an error).
#[derive(Clone, Copy, Debug)]
pub struct UsbDeviceInfo {
    pub bus_number: u8,
    pub address: u8,
    pub vendor_id: Option<u16>,
}

/// Whether a scanned device matches the fixed vendor id.
pub open spec fn is_vendor_match(d: UsbDeviceInfo) -> bool {
    d.vendor_id == Some(HUION_VENDOR_ID)
}

/// Whether a scanned device sits at the given bus number and address.
pub open spec fn is_at(d: UsbDeviceInfo, bus: u8, address: u8) -> bool {
    d.bus_number == bus && d.address == address
}

/// The positions of the devices that carry the fixed vendor id, in scan
/// order. A device whose descriptor could not be read never matches, and no
/// other device is ever selected.
pub fn matching_vendor_indices(devices: &Vec<UsbDeviceInfo>) -> (r: Vec<usize>)
    ensures
        forall|k: int|
            0 <= k < r@.len() ==> #[trigger] r@[k] < devices@.len() && is_vendor_match(
                devices@[r@[k] as int],
            ),
        forall|i: int|
            0 <= i < devices@.len() && is_vendor_match(#[trigger] devices@[i]) ==> r@.contains(
                i as usize,
            ),
        forall|k1: int, k2: int| 0 <= k1 < k2 < r@.len() ==> r@[k1] < r@[k2],
{
    let mut r: Vec<usize> = Vec::new();
    let mut i: usize = 0;
    while i < devices.len()
        invariant
            i <= devices@.len(),
            forall|k: int|
                0 <= k < r@.len() ==> #[trigger] r@[k] < i && is_vendor_match(
                    devices@[r@[k] as int],
                ),
            forall|j: int|
                0 <= j < i && is_vendor_match(#[trigger] devices@[j]) ==> r@.contains(j as usize),
            forall|k1: int, k2: int| 0 <= k1 < k2 < r@.len() ==> r@[k1] < r@[k2],
        decreases devices@.len() - i,
    {
        let matches = match devices[i].vendor_id {
            Some(v) => v == HUION_VENDOR_ID,
            None => false,
        };
        if matches {
            let ghost pre = r@;
            r.push(i);
            proof {
                assert forall|j: int|
                    0 <= j < i + 1 && is_vendor_match(#[trigger] devices@[j]) implies r@.contains(
                    j as usize,
                ) by {
                    if j < i {
                        let k = choose|k: int| 0 <= k < pre.len() && pre[k] == j as usize;
                        assert(r@[k] == j as usize);
                    } else {
                        assert(r@[r@.len() - 1] == i as usize);
                    }
                }
            }
        }
        i = i + 1;
    }
    r
}

/// The positions of the devices that sit at the given bus number and
/// address, in scan order: exactly those, and no other.
pub fn select_by_bus_address(devices: &Vec<UsbDeviceInfo>, bus: u8, address: u8) -> (r: Vec<
    usize,
>)
    ensures
        forall|k: int|
            0 <= k < r@.len() ==> #[trigger] r@[k] < devices@.len() && is_at(
                devices@[r@[k] as int],
                bus,
                address,
            ),
        forall|i: int|
            0 <= i < devices@.len() && is_at(#[trigger] devices@[i], bus, address)
                ==> r@.contains(i as usize),
        forall|k1: int, k2: int| 0 <= k1 < k2 < r@.len() ==> r@[k1] < r@[k2],
{
    let mut r: Vec<usize> = Vec::new();
    let mut i: usize = 0;
    while i < devices.len()
        invariant
            i <= devices@.len(),
            forall|k: int|
                0 <= k < r@.len() ==> #[trigger] r@[k] < i && is_at(
                    devices@[r@[k] as int],
                    bus,
                    address,
                ),
            forall|j: int|
                0 <= j < i && is_at(#[trigger] devices@[j], bus, address) ==> r@.contains(
                    j as usize,
                ),
            forall|k1: int, k2: int| 0 <= k1 < k2 < r@.len() ==> r@[k1] < r@[k2],
        decreases devices@.len() - i,
    {
        if devices[i].bus_number == bus && devices[i].address == address {
            let ghost pre = r@;
            r.push(i);
            proof {
                assert forall|j: int|
                    0 <= j < i + 1 && is_at(#[trigger] devices@[j], bus, address) implies r@
                    .contains(j as usize) by {
                    if j < i {
                        let k = choose|k: int| 0 <= k < pre.len() && pre[k] == j as usize;
                        assert(r@[k] == j as usize);
                    } else {
                        assert(r@[r@.len() - 1] == i as usize);
                    }
                }
            }
        }
        i = i + 1;
    }
    r
}

/// Whether a character is a decimal digit.
pub open spec fn is_dec_digit(c: char) -> bool {
    c == '0' || c == '1' || c == '2' || c == '3' || c == '4' || c == '5' || c == '6' || c == '7'
        || c == '8' || c == '9'
}

/// The value of a decimal digit character.
pub open spec fn dec_val(c: char) -> int
    recommends
        is_dec_digit(c),
{
    if c == '0' {
        0
    } else if c == '1' {
        1
    } else if c == '2' {
        2
    } else if c == '3' {
        3
    } else if c == '4' {
        4
    } else if c == '5' {
        5
    } else if c == '6' {
        6
    } else if c == '7' {
        7
    } else if c == '8' {
        8
    } else {
        9
    }
}

/// Whether every character of a sequence is a decimal digit.
pub open spec fn all_dec(s: Seq<char>) -> bool {
    forall|i: int| 0 <= i < s.len() ==> is_dec_digit(#[trigger] s[i])
}

/// The number a digit string denotes, most significant digit first.
pub open spec fn dec_value(s: Seq<char>) -> int
    recommends
        all_dec(s),
    decreases s.len(),
{
    if s.len() == 0 {
        0
    } else {
        dec_value(s.drop_last()) * 10 + dec_val(s.last())
    }
}

/// Whether a string is a nonempty run of decimal digits denoting a value
/// that fits in one byte (leading zeros allowed).
pub open spec fn parses_as_u8(s: Seq<char>) -> bool {
    s.len() > 0 && all_dec(s) && dec_value(s) <= 255
}

proof fn lemma_dec_value_nonneg(s: Seq<char>)
    ensures
        dec_value(s) >= 0,
    decreases s.len(),
{
    if s.len() > 0 {
        lemma_dec_value_nonneg(s.drop_last());
    }
}

proof fn lemma_dec_value_prefix(s: Seq<char>, i: int)
    requires
        0 <= i <= s.len(),
    ensures
        dec_value(s) >= dec_value(s.take(i)),
    decreases s.len() - i,
{
    if i == s.len() {
        assert(s.take(i) =~= s);
    } else {
        lemma_dec_value_prefix(s, i + 1);
        let p = s.take(i + 1);
        assert(p.drop_last() =~= s.take(i));
        lemma_dec_value_nonneg(p.drop_last());
    }
}

fn dec_digit_exec(c: char) -> (r: Option<u8>)
    ensures
        match r {
            Some(v) => is_dec_digit(c) && v as int == dec_val(c) && v <= 9,
            None => !is_dec_digit(c),
        },
{
    if c == '0' {
        Some(0)
    } else if c == '1' {
        Some(1)
    } else if c == '2' {
        Some(2)
    } else if c == '3' {
        Some(3)
    } else if c == '4' {
        Some(4)
    } else if c == '5' {
        Some(5)
    } else if c == '6' {
        Some(6)
    } else if c == '7' {
        Some(7)
    } else if c == '8' {
        Some(8)
    } else if c == '9' {
        Some(9)
    } else {
        None
    }
}

/// Parse a bus-number or device-address property value: a nonempty decimal
/// digit string whose value fits in one byte. Returns `None` exactly when
/// the string is empty, holds a non-digit, or denotes a larger value.
pub fn parse_u8(s: &str) -> (r: Option<u8>)
    ensures
        match r {
            Some(v) => parses_as_u8(s@) && v as int == dec_value(s@),
            None => !parses_as_u8(s@),
        },
{
    let len = s.unicode_len();
    if len == 0 {
        return None;
    }
    let mut acc: u32 = 0;
    let mut i: usize = 0;
    proof {
        assert(s@.take(0) =~= Seq::<char>::empty());
    }
    while i < len
        invariant
            len == s@.len(),
            i <= len,
            forall|j: int| 0 <= j < i ==> is_dec_digit(#[trigger] s@[j]),
            acc as int == dec_value(s@.take(i as int)),
            acc <= 255,
        decreases len - i,
    {
        let c = s.get_char(i);
        let d = match dec_digit_exec(c) {
            Some(d) => d,
            None => {
                return None;
            },
        };
        acc = acc * 10 + d as u32;
        proof {
            let p = s@.take(i as int + 1);
            assert(p.drop_last() =~= s@.take(i as int));
            assert(p.last() == s@[i as int]);
        }
        if acc > 255 {
            proof {
                lemma_dec_value_prefix(s@, i as int + 1);
            }
            return None;
        }
        i = i + 1;
    }
    proof {
        assert(s@.take(len as int) =~= s@);
    }
    Some(acc as u8)
}

/// Whether a node's devtype names a USB device proper, as opposed to one of
/// its interfaces or descendants.
pub fn is_usb_device_devtype(s: &str) -> (r: bool)
    ensures
        r == (s@ == "usb_device"@),
{
    let owned = s.to_owned();
    let target = String::from_str("usb_device");
    owned.eq(&target)
}

} // verus!
