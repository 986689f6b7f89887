//! Sizing the volume that is carved out of the pool.
use vstd::prelude::*;
use crate::error::DiskError;
use crate::text::{decimal_value, lines_of, numeral_digits, parse_u64, parses_as_u64, split_lines};

verus! {

/// The volume takes this share, in percent, of the pool's free space.
pub const VOLUME_PERCENT: u64 = 93;

/// The size of the volume carved from a pool with `free` bytes free.
pub open spec fn volume_size_of(free: nat) -> nat {
    free * 93 / 100
}

/// The volume size for `free` free bytes: 93 percent, rounded down. Computed
/// without an intermediate product, so it holds for every `u64`.
pub fn volume_size(free: u64) -> (r: u64)
    ensures
        r == volume_size_of(free as nat),
{
    let q = free / 100;
    let m = free % 100;
    assert(q * 93 + m * 93 / 100 == free * 93 / 100 && q * 93 + m * 93 / 100 <= u64::MAX)
        by (nonlinear_arith)
        requires
            q == free / 100,
            m == free % 100,
            free <= u64::MAX,
    ;
    q * VOLUME_PERCENT + m * VOLUME_PERCENT / 100
}

/// The result of reading a byte count from a tool's output.
pub open spec fn byte_count_of(text: Seq<char>, r: Result<u64, DiskError>) -> bool {
    if parses_as_u64(text) {
        r == Ok::<u64, DiskError>(decimal_value(numeral_digits(text)) as u64)
    } else {
        r is Err && r->Err_0 is Parse
    }
}

fn read_byte_count(text: &str) -> (r: Result<u64, DiskError>)
    ensures
        byte_count_of(text@, r),
{
    match parse_u64(text) {
        Some(v) => Ok(v),
        None => Err(DiskError::Parse(String::from_str(text))),
    }
}

/// Reads the free bytes of a pool from the output of the pool's free-space
/// query: one unsigned integer, with whitespace around it allowed.
pub fn get_zfs_free_space(output: &str) -> (r: Result<u64, DiskError>)
    ensures
        byte_count_of(output@, r),
{
    read_byte_count(output)
}

/// The first line of `s`, or nothing when it has no line.
pub open spec fn first_line(s: Seq<char>) -> Seq<char> {
    if lines_of(s).len() > 0 {
        lines_of(s)[0]
    } else {
        Seq::empty()
    }
}

/// Reads a disk's size in bytes from the first line of a size listing.
pub fn disk_size(output: &str) -> (r: Result<u64, DiskError>)
    ensures
        byte_count_of(first_line(output@), r),
{
    let lines = split_lines(output);
    if lines.len() > 0 {
        assert(lines@[0]@ == lines@.map_values(|l: String| l@)[0]);
        read_byte_count(lines[0].as_str())
    } else {
        proof {
            reveal_strlit("");
        }
        assert(""@ =~= Seq::<char>::empty());
        read_byte_count("")
    }
}

} // verus!
