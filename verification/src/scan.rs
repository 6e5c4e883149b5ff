//! Finding code in the game's UnityPlayer module by byte pattern, and following the
//! instruction found there to the address it refers to.
use vstd::prelude::*;

verus! {

/// What `patternscan::scan_first_match` answers for a byte string and a pattern:
/// `None` when the scan fails, else the index of the first match it reports, if any.
pub uninterp spec fn pattern_scan_first_match(bytes: Seq<u8>, pattern: Seq<char>) -> Option<Option<usize>>;

/// Calls `patternscan::scan_first_match` on a byte slice. Its answer is taken to be a
/// function of the bytes and the pattern alone (reading a slice cannot fail); an
/// error, which the crate returns for a pattern it cannot parse or one that is too
/// long, becomes `None`. Nothing is claimed of where a reported match lies: near the
/// end of the input the crate can report matches that run past it.
#[verifier::external_body]
fn scan_first_match_in(bytes: &[u8], pattern: &str) -> (r: Option<Option<usize>>)
    ensures
        r == pattern_scan_first_match(bytes@, pattern@),
{
    match patternscan::scan_first_match(bytes, pattern) {
        Ok(found) => Some(found),
        Err(_) => None,
    }
}

/// Why a pattern scan gave no address.
#[derive(Debug, Clone, Copy, PartialEq, Eq, Structural)]
pub enum ScanError {
    /// The pattern scan failed.
    InvalidPattern,
    /// The instruction at this match runs past the end of the bytes.
    TruncatedOperand(usize),
}

/// The signed value of four bytes in little-endian order.
pub open spec fn le_i32(b0: u8, b1: u8, b2: u8, b3: u8) -> int {
    let u = b0 as int + 0x100 * b1 as int + 0x1_0000 * b2 as int + 0x100_0000 * b3 as int;
    if u >= 0x8000_0000 {
        u - 0x1_0000_0000
    } else {
        u
    }
}

/// An address computed with wrap-around in the address space.
pub open spec fn wrap_address(t: int) -> int {
    if t > usize::MAX {
        t - (usize::MAX + 1)
    } else if t < 0 {
        t + (usize::MAX + 1)
    } else {
        t
    }
}

/// The instruction at `a` is a relative call: opcode 0xE8.
pub open spec fn is_relative_call(bytes: Seq<u8>, a: int) -> bool {
    0 <= a < bytes.len() && bytes[a] == 0xE8
}

/// The instruction at `a` is a RIP-relative move: opcode 0x48 0x8B.
pub open spec fn is_rip_relative_move(bytes: Seq<u8>, a: int) -> bool {
    &&& 0 <= a < bytes.len() && bytes[a] == 0x48
    &&& a + 1 < bytes.len() && bytes[a + 1] == 0x8B
}

/// The instruction at `a`, where it is one that refers to another address, lies
/// within the bytes.
pub open spec fn operand_in_bounds(bytes: Seq<u8>, a: int) -> bool {
    if is_relative_call(bytes, a) {
        a + 5 <= bytes.len()
    } else if is_rip_relative_move(bytes, a) {
        a + 7 <= bytes.len()
    } else {
        true
    }
}

/// The address a match at `a` leads to: the target of a relative call (the end of
/// the five-byte instruction plus its 32-bit offset), the operand of a RIP-relative
/// move (the end of the seven-byte instruction plus its offset), or `a` itself.
pub open spec fn match_target(bytes: Seq<u8>, a: int) -> int {
    if is_relative_call(bytes, a) {
        wrap_address(a + 5 + le_i32(bytes[a + 1], bytes[a + 2], bytes[a + 3], bytes[a + 4]))
    } else if is_rip_relative_move(bytes, a) {
        wrap_address(a + 7 + le_i32(bytes[a + 3], bytes[a + 4], bytes[a + 5], bytes[a + 6]))
    } else {
        a
    }
}

/// `t` is the address `x` taken modulo the size of the address space.
pub open spec fn is_address_of(t: int, x: int) -> bool {
    &&& 0 <= t <= usize::MAX
    &&& (t == x || t == x - (usize::MAX + 1) || t == x + (usize::MAX + 1))
}

/// Four bytes read as a little-endian signed 32-bit number: a value in the signed
/// range that agrees with `b0 + 2^8 b1 + 2^16 b2 + 2^24 b3` modulo 2^32.
pub proof fn le_i32_reads_four_bytes(b0: u8, b1: u8, b2: u8, b3: u8)
    ensures
        -0x8000_0000 <= le_i32(b0, b1, b2, b3) < 0x8000_0000,
        le_i32(b0, b1, b2, b3) == b0 + 0x100 * b1 + 0x1_0000 * b2 + 0x100_0000 * b3
            || le_i32(b0, b1, b2, b3) == b0 + 0x100 * b1 + 0x1_0000 * b2 + 0x100_0000 * b3 - 0x1_0000_0000,
{
}

/// A match on a relative call (0xE8 and a 32-bit offset) whose operand lies within
/// the bytes leads to the end of the five-byte instruction plus the offset.
pub proof fn relative_call_is_followed(bytes: Seq<u8>, a: int)
    requires
        0 <= a,
        a + 5 <= bytes.len(),
        bytes[a] == 0xE8,
        a <= usize::MAX,
    ensures
        operand_in_bounds(bytes, a),
        is_address_of(match_target(bytes, a), a + 5 + le_i32(bytes[a + 1], bytes[a + 2], bytes[a + 3], bytes[a + 4])),
{
}

/// A match on a RIP-relative move (0x48 0x8B, any register byte, a 32-bit offset)
/// whose operand lies within the bytes leads to the end of the seven-byte
/// instruction plus the offset, whatever register the move loads.
pub proof fn rip_relative_move_is_followed(bytes: Seq<u8>, a: int)
    requires
        0 <= a,
        a + 7 <= bytes.len(),
        bytes[a] == 0x48,
        bytes[a + 1] == 0x8B,
        a <= usize::MAX,
    ensures
        operand_in_bounds(bytes, a),
        is_address_of(match_target(bytes, a), a + 7 + le_i32(bytes[a + 3], bytes[a + 4], bytes[a + 5], bytes[a + 6])),
{
}

/// A call or move whose operand runs past the end of the bytes is not followed.
pub proof fn truncated_operands_are_refused(bytes: Seq<u8>, a: int)
    requires
        0 <= a < bytes.len(),
        (bytes[a] == 0xE8 && a + 5 > bytes.len())
            || (bytes[a] == 0x48 && a + 1 < bytes.len() && bytes[a + 1] == 0x8B && a + 7 > bytes.len()),
    ensures
        !operand_in_bounds(bytes, a),
{
}

/// A match on any other instruction (neither 0xE8 nor 0x48 0x8B) is the address
/// itself.
pub proof fn other_matches_stay(bytes: Seq<u8>, a: int)
    requires
        0 <= a < bytes.len(),
        bytes[a] != 0xE8,
        !(bytes[a] == 0x48 && a + 1 < bytes.len() && bytes[a + 1] == 0x8B),
    ensures
        operand_in_bounds(bytes, a),
        match_target(bytes, a) == a,
{
}

/// The signed value of four bytes in little-endian order.
pub fn i32_from_le_bytes(b0: u8, b1: u8, b2: u8, b3: u8) -> (r: i32)
    ensures
        r as int == le_i32(b0, b1, b2, b3),
{
    let u: u32 = b0 as u32 + 0x100 * (b1 as u32) + 0x1_0000 * (b2 as u32) + 0x100_0000 * (b3 as u32);
    if u >= 0x8000_0000 {
        let v: i64 = u as i64 - 0x1_0000_0000i64;
        v as i32
    } else {
        u as i32
    }
}

/// `address + length + offset` with wrap-around.
fn offset_address(address: usize, length: usize, offset: i32) -> (r: usize)
    requires
        length <= 7,
    ensures
        r as int == wrap_address(address + length + offset),
{
    address.wrapping_add(length).wrapping_add_signed(offset as isize)
}

/// The address a match at `address` leads to.
pub fn resolve_match(bytes: &[u8], address: usize) -> (r: usize)
    requires
        operand_in_bounds(bytes@, address as int),
    ensures
        r as int == match_target(bytes@, address as int),
{
    if address < bytes.len() && bytes[address] == 0xE8 {
        let offset = i32_from_le_bytes(bytes[address + 1], bytes[address + 2], bytes[address + 3], bytes[address + 4]);
        offset_address(address, 5, offset)
    } else if address < bytes.len() && bytes[address] == 0x48 && address + 1 < bytes.len()
        && bytes[address + 1] == 0x8B {
        let offset = i32_from_le_bytes(bytes[address + 3], bytes[address + 4], bytes[address + 5], bytes[address + 6]);
        offset_address(address, 7, offset)
    } else {
        address
    }
}

/// What a scan answer leads to: `None` (the scan failed) is an invalid pattern, no
/// match is no address, and a match is followed to the address it refers to, unless
/// its instruction runs past the end of the bytes.
pub fn resolve_scan_result(bytes: &[u8], found: Option<Option<usize>>) -> (r: Result<Option<usize>, ScanError>)
    ensures
        match found {
            None => r == Err::<Option<usize>, ScanError>(ScanError::InvalidPattern),
            Some(None) => r == Ok::<Option<usize>, ScanError>(None),
            Some(Some(a)) => if operand_in_bounds(bytes@, a as int) {
                r matches Ok(Some(t)) && t as int == match_target(bytes@, a as int)
            } else {
                r == Err::<Option<usize>, ScanError>(ScanError::TruncatedOperand(a))
            },
        },
{
    match found {
        None => Err(ScanError::InvalidPattern),
        Some(None) => Ok(None),
        Some(Some(address)) => {
            let in_bounds = if address < bytes.len() && bytes[address] == 0xE8 {
                bytes.len() >= 5 && address <= bytes.len() - 5
            } else if address < bytes.len() && bytes[address] == 0x48 && address + 1 < bytes.len()
                && bytes[address + 1] == 0x8B {
                bytes.len() >= 7 && address <= bytes.len() - 7
            } else {
                true
            };
            if in_bounds {
                Ok(Some(resolve_match(bytes, address)))
            } else {
                Err(ScanError::TruncatedOperand(address))
            }
        },
    }
}

/// Scan the module's bytes for a pattern and follow the first match to the address it
/// leads to.
pub fn scan_unity_player_section(bytes: &[u8], pattern: &str) -> (r: Result<Option<usize>, ScanError>)
    ensures
        match pattern_scan_first_match(bytes@, pattern@) {
            None => r == Err::<Option<usize>, ScanError>(ScanError::InvalidPattern),
            Some(None) => r == Ok::<Option<usize>, ScanError>(None),
            Some(Some(a)) => if operand_in_bounds(bytes@, a as int) {
                r matches Ok(Some(t)) && t as int == match_target(bytes@, a as int)
            } else {
                r == Err::<Option<usize>, ScanError>(ScanError::TruncatedOperand(a))
            },
        },
{
    resolve_scan_result(bytes, scan_first_match_in(bytes, pattern))
}

} // verus!
