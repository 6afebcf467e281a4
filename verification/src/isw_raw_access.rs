//! Register access: the byte space of the embedded controller, read and
//! written sixteen bits at a time, low byte first.

use crate::error::AccessError;
use crate::text::{append_decimal, decimal};
use vstd::prelude::*;
use vstd::string::*;

verus! {

/// The sixteen-bit value whose low byte is `lo` and whose high byte is `hi`.
pub open spec fn le_u16(lo: u8, hi: u8) -> u16 {
    (lo as int + 256 * (hi as int)) as u16
}

/// The low byte of `value`.
pub open spec fn low_byte(value: u16) -> u8 {
    (value as int % 256) as u8
}

/// The high byte of `value`.
pub open spec fn high_byte(value: u16) -> u8 {
    (value as int / 256) as u8
}

/// The register that `bytes` holds at `address`.
pub open spec fn stored_u16(bytes: Seq<u8>, address: int) -> u16 {
    le_u16(bytes[address], bytes[address + 1])
}

/// `bytes` with `value` stored at `address`.
pub open spec fn store_u16(bytes: Seq<u8>, address: int, value: u16) -> Seq<u8> {
    bytes.update(address, low_byte(value)).update(address + 1, high_byte(value))
}

/// What a read at `address` returns from a space that holds `bytes` and
/// answers the access with `fault`.
pub open spec fn read_outcome(bytes: Seq<u8>, fault: Option<AccessError>, address: u64) -> Result<
    u16,
    AccessError,
> {
    match fault {
        Some(e) => Err(e),
        None => Ok(stored_u16(bytes, address as int)),
    }
}

/// What a write returns from a space that answers the access with `fault`.
pub open spec fn write_outcome(fault: Option<AccessError>) -> Result<(), AccessError> {
    match fault {
        Some(e) => Err(e),
        None => Ok(()),
    }
}

/// What a space that held `bytes` holds after a write of `value` at
/// `address` that it answered with `fault`.
pub open spec fn bytes_after_write(
    bytes: Seq<u8>,
    fault: Option<AccessError>,
    address: u64,
    value: u16,
) -> Seq<u8> {
    match fault {
        Some(_) => bytes,
        None => store_u16(bytes, address as int, value),
    }
}

/// Puts two bytes together, low byte first.
pub fn decode_le(lo: u8, hi: u8) -> (value: u16)
    ensures
        value == le_u16(lo, hi),
{
    lo as u16 + 256 * (hi as u16)
}

/// Takes a value apart, low byte first.
pub fn encode_le(value: u16) -> (r: (u8, u8))
    ensures
        r.0 == low_byte(value),
        r.1 == high_byte(value),
{
    ((value % 256) as u8, (value / 256) as u8)
}

/// The outcome of a read of which the transfer moved `count` bytes
/// (`None`: it failed) into `lo` and `hi`: the value that the two bytes
/// make, and a transfer failure unless exactly two bytes were moved.
pub open spec fn read_transfer(count: Option<usize>, lo: u8, hi: u8) -> Result<u16, AccessError> {
    if count == Some(2usize) {
        Ok(le_u16(lo, hi))
    } else {
        Err(AccessError::Transfer)
    }
}

/// The outcome of a write of which the transfer moved `count` bytes
/// (`None`: it failed): a transfer failure unless exactly two bytes were
/// moved.
pub open spec fn write_transfer(count: Option<usize>) -> Result<(), AccessError> {
    if count == Some(2usize) {
        Ok(())
    } else {
        Err(AccessError::Transfer)
    }
}

/// The outcome of a read, given how many bytes the transfer moved (`None`:
/// it failed) and the two bytes of the buffer.
pub fn read_transferred(count: Option<usize>, lo: u8, hi: u8) -> (r: Result<u16, AccessError>)
    ensures
        r == read_transfer(count, lo, hi),
{
    match count {
        Some(n) => if n == 2 {
            Ok(decode_le(lo, hi))
        } else {
            Err(AccessError::Transfer)
        },
        None => Err(AccessError::Transfer),
    }
}

/// The outcome of a write, given how many bytes the transfer moved
/// (`None`: it failed).
pub fn write_transferred(count: Option<usize>) -> (r: Result<(), AccessError>)
    ensures
        r == write_transfer(count),
{
    match count {
        Some(n) => if n == 2 {
            Ok(())
        } else {
            Err(AccessError::Transfer)
        },
        None => Err(AccessError::Transfer),
    }
}

/// Taking a value apart and putting the bytes together gives the value back.
pub proof fn law_le_round_trip(value: u16)
    ensures
        le_u16(low_byte(value), high_byte(value)) == value,
{
}

/// Putting two bytes together and taking the value apart gives the bytes back.
pub proof fn law_le_bytes_round_trip(lo: u8, hi: u8)
    ensures
        low_byte(le_u16(lo, hi)) == lo,
        high_byte(le_u16(lo, hi)) == hi,
{
}

/// What was stored at an address inside the space is what the space then
/// holds there, and every other byte is as before.
pub proof fn law_store_then_load(bytes: Seq<u8>, address: int, value: u16)
    requires
        0 <= address,
        address + 2 <= bytes.len(),
    ensures
        store_u16(bytes, address, value).len() == bytes.len(),
        stored_u16(store_u16(bytes, address, value), address) == value,
        forall|i: int|
            0 <= i < bytes.len() && i != address && i != address + 1 ==> store_u16(
                bytes,
                address,
                value,
            )[i] == bytes[i],
{
}

/// A byte-addressable register space that is read and written two bytes
/// at a time.
///
/// `reads` and `writes` say which outcomes an access may have. A space
/// that says nothing of itself admits every outcome: such is the
/// controller's own register file, whose content changes under the
/// reader's hands. A space that is held in memory says exactly one.
pub trait RegisterSpace {
    /// Whether a read at `address` may return `r`.
    open spec fn reads(&self, address: u64, r: Result<u16, AccessError>) -> bool {
        true
    }

    /// Whether a write of `value` at `address` may return `r` and leave
    /// the space as `after`.
    open spec fn writes(
        &self,
        address: u64,
        value: u16,
        r: Result<(), AccessError>,
        after: &Self,
    ) -> bool {
        true
    }

    /// Reads the register at `base_address`.
    fn read_hw(&self, base_address: u64) -> (r: Result<u16, AccessError>)
        ensures
            self.reads(base_address, r),
    ;

    /// Writes `value` to the register at `base_address`.
    fn write_hw(&mut self, base_address: u64, value: u16) -> (r: Result<(), AccessError>)
        ensures
            old(self).writes(base_address, value, r, final(self)),
    ;
}

/// The register file of the embedded controller, named by its path.
#[derive(Clone, Debug)]
pub struct IswRawAccess {
    m_sys_fs_file: String,
}

impl IswRawAccess {
    /// The path of the register file.
    pub closed spec fn path(&self) -> Seq<char> {
        self.m_sys_fs_file@
    }

    /// A handle for the register file at `sys_fs_file`.
    pub fn new(sys_fs_file: String) -> (r: IswRawAccess)
        ensures
            r.path() == sys_fs_file@,
    {
        IswRawAccess { m_sys_fs_file: sys_fs_file }
    }

    /// The path of the register file.
    pub fn file(&self) -> (r: &str)
        ensures
            r@ == self.path(),
    {
        self.m_sys_fs_file.as_str()
    }

    /// The text for a register file that could not be opened; `error` is
    /// the system's reason.
    pub fn format_opening_error(&self, error: String) -> (r: String)
        ensures
            r@ == "Opening file <"@ + self.path() + "> failed with <"@ + error@ + ">"@,
    {
        let mut out = String::from_str("Opening file <");
        out.append(self.m_sys_fs_file.as_str());
        out.append("> failed with <");
        out.append(error.as_str());
        out.append(">");
        out
    }

    /// The text for a failed seek to `base_address`; `error` is the
    /// system's reason.
    pub fn format_seek_error(&self, base_address: u64, error: String) -> (r: String)
        ensures
            r@ == "Seeking pos <"@ + decimal(base_address as nat) + "> of file <"@ + self.path()
                + "> failed with <"@ + error@ + ">"@,
    {
        let mut out = String::from_str("Seeking pos <");
        append_decimal(&mut out, base_address);
        out.append("> of file <");
        out.append(self.m_sys_fs_file.as_str());
        out.append("> failed with <");
        out.append(error.as_str());
        out.append(">");
        out
    }

    /// The text for a failed transfer, a read if `read` and a write otherwise.
    pub fn format_rw_error(&self, read: bool) -> (r: String)
        ensures
            r@ == (if read {
                "Could not read from file <"@
            } else {
                "Could not write from file <"@
            }) + self.path() + ">"@,
    {
        let mut out = if read {
            String::from_str("Could not read from file <")
        } else {
            String::from_str("Could not write from file <")
        };
        out.append(self.m_sys_fs_file.as_str());
        out.append(">");
        out
    }
}

/// The failure with which a simulated space of `len` bytes answers an
/// access at `address`: it cannot be opened while offline, it cannot seek
/// beyond its end, and it cannot transfer two bytes where fewer are left.
pub open spec fn simulated_fault(len: nat, offline: bool, address: u64) -> Option<AccessError> {
    if offline {
        Some(AccessError::Open)
    } else if address > len {
        Some(AccessError::Seek { address })
    } else if address + 2 > len {
        Some(AccessError::Transfer)
    } else {
        None
    }
}

/// A register space held in memory.
#[derive(Clone, Debug, PartialEq, Eq)]
pub struct SimulatedRegisters {
    /// The bytes of the space.
    pub cells: Vec<u8>,
    /// While set, the space cannot be opened.
    pub offline: bool,
}

impl SimulatedRegisters {
    /// A space of `size` zero bytes.
    pub fn new(size: usize) -> (r: SimulatedRegisters)
        ensures
            r.cells@ == Seq::new(size as nat, |i: int| 0u8),
            !r.offline,
    {
        let mut cells: Vec<u8> = Vec::new();
        let mut i: usize = 0;
        while i < size
            invariant
                i <= size,
                cells@ == Seq::new(i as nat, |j: int| 0u8),
            decreases size - i,
        {
            cells.push(0);
            i += 1;
            assert(cells@ =~= Seq::new(i as nat, |j: int| 0u8));
        }
        SimulatedRegisters { cells, offline: false }
    }

    /// A space that holds `cells`.
    pub fn from_bytes(cells: Vec<u8>) -> (r: SimulatedRegisters)
        ensures
            r.cells == cells,
            !r.offline,
    {
        SimulatedRegisters { cells, offline: false }
    }
}

impl SimulatedRegisters {
    /// The failure with which the space answers an access at `address`.
    pub open spec fn fault(&self, address: u64) -> Option<AccessError> {
        simulated_fault(self.cells@.len(), self.offline, address)
    }
}

impl RegisterSpace for SimulatedRegisters {
    open spec fn reads(&self, address: u64, r: Result<u16, AccessError>) -> bool {
        r == read_outcome(self.cells@, self.fault(address), address)
    }

    open spec fn writes(
        &self,
        address: u64,
        value: u16,
        r: Result<(), AccessError>,
        after: &Self,
    ) -> bool {
        &&& r == write_outcome(self.fault(address))
        &&& after.cells@ == bytes_after_write(self.cells@, self.fault(address), address, value)
        &&& after.offline == self.offline
    }

    fn read_hw(&self, base_address: u64) -> (r: Result<u16, AccessError>) {
        let len = self.cells.len();
        if self.offline {
            return Err(AccessError::Open);
        }
        if base_address > len as u64 {
            return Err(AccessError::Seek { address: base_address });
        }
        let at = base_address as usize;
        if len - at < 2 {
            return Err(AccessError::Transfer);
        }
        Ok(decode_le(self.cells[at], self.cells[at + 1]))
    }

    fn write_hw(&mut self, base_address: u64, value: u16) -> (r: Result<(), AccessError>) {
        let len = self.cells.len();
        if self.offline {
            return Err(AccessError::Open);
        }
        if base_address > len as u64 {
            return Err(AccessError::Seek { address: base_address });
        }
        let at = base_address as usize;
        if len - at < 2 {
            return Err(AccessError::Transfer);
        }
        let (lo, hi) = encode_le(value);
        self.cells.set(at, lo);
        self.cells.set(at + 1, hi);
        Ok(())
    }
}

} // verus!
