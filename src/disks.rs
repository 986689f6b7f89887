//! Disk inventory and classification: which disk holds the system, which holds
//! swap, and which of the remaining disks may join the data pool.
use vstd::prelude::*;
use crate::error::DiskError;
use crate::text::{contains_str, has_substr, lines_of, split_lines};

verus! {

/// The character views of a sequence of strings.
pub open spec fn views(v: Seq<String>) -> Seq<Seq<char>> {
    v.map_values(|s: String| s@)
}

/// The first capture group of every match of the disk-line pattern
/// `(?m)^(\S+)\s+disk` in a `NAME TYPE MOUNTPOINT` listing, in order.
pub uninterp spec fn disk_line_names(listing: Seq<char>) -> Seq<Seq<char>>;

/// The first capture group of the first match of the swap-line pattern
/// `(?m)^(\S+).*swap` in a filesystem listing.
pub uninterp spec fn swap_line_name(listing: Seq<char>) -> Option<Seq<char>>;

/// Relies on regex's `Regex::captures_iter`: the names that lead every line
/// whose type column reads "disk", in listing order. Every match contains the
/// literal "disk", so a listing without it yields none. The pattern is fixed
/// and valid, so compiling it does not fail.
#[verifier::external_body]
fn capture_disk_lines(listing: &str) -> (r: Vec<String>)
    ensures
        views(r@) == disk_line_names(listing@),
        !has_substr(listing@, seq!['d', 'i', 's', 'k']) ==> r@.len() == 0,
{
    let re = regex::Regex::new(r"(?m)^(\S+)\s+disk").unwrap();
    re.captures_iter(listing).map(|c| c[1].to_string()).collect()
}

/// Relies on regex's `Regex::captures`: the leading name of the first line
/// that mentions "swap". Every match contains the literal "swap", so a listing
/// without it yields nothing. The pattern is fixed and valid, so compiling it
/// does not fail.
#[verifier::external_body]
fn capture_swap_line(listing: &str) -> (r: Option<String>)
    ensures
        match r {
            Some(s) => swap_line_name(listing@) == Some(s@),
            None => swap_line_name(listing@) is None,
        },
        !has_substr(listing@, seq!['s', 'w', 'a', 'p']) ==> r is None,
{
    let re = regex::Regex::new(r"(?m)^(\S+).*swap").unwrap();
    re.captures(listing).map(|c| c[1].to_string())
}

/// A disk name counts as listed when the listing holds the name followed by a
/// space.
pub open spec fn is_listed(listing: Seq<char>, name: Seq<char>) -> bool {
    has_substr(listing, name + seq![' '])
}

/// `names[i]` is the first of `names` that is listed.
pub open spec fn is_first_listed(listing: Seq<char>, names: Seq<Seq<char>>, i: int) -> bool {
    0 <= i < names.len() && is_listed(listing, names[i]) && forall|j: int|
        0 <= j < i ==> !is_listed(listing, #[trigger] names[j])
}

/// What the system-disk heuristic picks from the disk-type names of a listing:
/// the first of them that is listed, or `NotFound` when there is none.
pub open spec fn system_disk_spec(listing: Seq<char>, names: Seq<Seq<char>>, r: Result<String, DiskError>) -> bool {
    match r {
        Ok(d) => exists|i: int| is_first_listed(listing, names, i) && d@ == names[i],
        Err(e) => e == DiskError::NotFound && forall|i: int|
            0 <= i < names.len() ==> !is_listed(listing, #[trigger] names[i]),
    }
}

/// Picks the system disk among `names`, the disk-type names found in `listing`.
pub fn system_disk_from(listing: &str, names: &Vec<String>) -> (r: Result<String, DiskError>)
    ensures
        system_disk_spec(listing@, views(names@), r),
{
    let mut i: usize = 0;
    while i < names.len()
        invariant
            i <= names@.len(),
            forall|j: int| 0 <= j < i ==> !is_listed(listing@, #[trigger] views(names@)[j]),
        decreases names@.len() - i,
    {
        let mut probe = names[i].clone();
        probe.append(" ");
        proof {
            reveal_strlit(" ");
            assert(" "@ =~= seq![' ']);
        }
        assert(views(names@)[i as int] == names@[i as int]@);
        if contains_str(listing, probe.as_str()) {
            assert(is_first_listed(listing@, views(names@), i as int));
            return Ok(names[i].clone());
        }
        i += 1;
    }
    Err(DiskError::NotFound)
}

/// Finds the system disk in a `NAME TYPE MOUNTPOINT` listing: the first name
/// whose line has type "disk" and that the listing holds followed by a space.
/// This is a heuristic; it does not check which disk carries `/`.
pub fn find_system_disk(listing: &str) -> (r: Result<String, DiskError>)
    ensures
        system_disk_spec(listing@, disk_line_names(listing@), r),
        !has_substr(listing@, seq!['d', 'i', 's', 'k']) ==> r == Err::<String, DiskError>(
            DiskError::NotFound,
        ),
{
    let names = capture_disk_lines(listing);
    system_disk_from(listing, &names)
}

/// The swap disk given the swap-line capture of a listing.
pub fn swap_disk_from(capture: Option<String>) -> (r: Result<String, DiskError>)
    ensures
        match capture {
            Some(s) => r == Ok::<String, DiskError>(s),
            None => r == Err::<String, DiskError>(DiskError::NotFound),
        },
{
    match capture {
        Some(s) => Ok(s),
        None => Err(DiskError::NotFound),
    }
}

/// Finds the swap disk in a filesystem listing: the leading name of the first
/// line that mentions "swap", or `NotFound`.
pub fn find_swap_disk(listing: &str) -> (r: Result<String, DiskError>)
    ensures
        match swap_line_name(listing@) {
            Some(s) => r is Ok && r->Ok_0@ == s,
            None => r == Err::<String, DiskError>(DiskError::NotFound),
        },
        !has_substr(listing@, seq!['s', 'w', 'a', 'p']) ==> r == Err::<String, DiskError>(
            DiskError::NotFound,
        ),
{
    swap_disk_from(capture_swap_line(listing))
}

/// The disk inventory in the output of the whole-disk listing: one disk per
/// line, in listing order.
pub fn list_disk(output: &str) -> (r: Vec<String>)
    ensures
        views(r@) == lines_of(output@),
{
    split_lines(output)
}

/// The name stands in for a system disk that could not be found.
pub open spec fn no_system_disk() -> Seq<char> {
    "no_system_disk"@
}

/// The name stands in for a swap disk that could not be found.
pub open spec fn no_swap_disk() -> Seq<char> {
    "no_swap_disk"@
}

/// The name to exclude for a lookup: the disk found, or the given stand-in.
pub open spec fn excluded_name(lookup: Result<String, DiskError>, stand_in: Seq<char>) -> Seq<char> {
    match lookup {
        Ok(d) => d@,
        Err(_) => stand_in,
    }
}

/// The name follows one of the naming conventions of data disks.
pub open spec fn has_data_disk_naming(d: Seq<char>) -> bool {
    has_substr(d, seq!['s', 'd']) || has_substr(d, seq!['h', 'd']) || has_substr(d, seq!['v', 'd'])
        || has_substr(d, seq!['n', 'v', 'm', 'e'])
}

/// `d` may join the data pool: it mentions neither the system disk nor the
/// swap disk, and it follows a data-disk naming convention.
pub open spec fn is_data_disk(d: Seq<char>, system: Seq<char>, swap: Seq<char>) -> bool {
    !has_substr(d, system) && !has_substr(d, swap) && has_data_disk_naming(d)
}

/// The data disks of an inventory, in inventory order.
pub open spec fn data_disks_of(disks: Seq<Seq<char>>, system: Seq<char>, swap: Seq<char>) -> Seq<Seq<char>> {
    disks.filter(|d: Seq<char>| is_data_disk(d, system, swap))
}

fn has_data_disk_naming_exec(d: &str) -> (r: bool)
    ensures
        r == has_data_disk_naming(d@),
{
    proof {
        reveal_strlit("sd");
        reveal_strlit("hd");
        reveal_strlit("vd");
        reveal_strlit("nvme");
        assert("sd"@ =~= seq!['s', 'd']);
        assert("hd"@ =~= seq!['h', 'd']);
        assert("vd"@ =~= seq!['v', 'd']);
        assert("nvme"@ =~= seq!['n', 'v', 'm', 'e']);
    }
    contains_str(d, "sd") || contains_str(d, "hd") || contains_str(d, "vd") || contains_str(d, "nvme")
}

/// Selects the data disks of the inventory `disks`, given the outcome of the
/// system-disk and swap-disk lookups. A failed lookup excludes by a stand-in
/// name instead, so classification goes on without it.
pub fn list_data_disk(
    disks: &Vec<String>,
    system: &Result<String, DiskError>,
    swap: &Result<String, DiskError>,
) -> (r: Vec<String>)
    ensures
        views(r@) == data_disks_of(
            views(disks@),
            excluded_name(*system, no_system_disk()),
            excluded_name(*swap, no_swap_disk()),
        ),
        system is Err ==> views(r@) == data_disks_of(
            views(disks@),
            no_system_disk(),
            excluded_name(*swap, no_swap_disk()),
        ),
        forall|k: int|
            0 <= k < r@.len() ==> {
                let d = #[trigger] r@[k]@;
                &&& !has_substr(d, excluded_name(*system, no_system_disk()))
                &&& !has_substr(d, excluded_name(*swap, no_swap_disk()))
                &&& has_data_disk_naming(d)
            },
{
    let system_disk: &str = match system {
        Ok(d) => d.as_str(),
        Err(_) => "no_system_disk",
    };
    let swap_disk: &str = match swap {
        Ok(d) => d.as_str(),
        Err(_) => "no_swap_disk",
    };
    let ghost sys = excluded_name(*system, no_system_disk());
    let ghost swp = excluded_name(*swap, no_swap_disk());
    let ghost pred = |d: Seq<char>| is_data_disk(d, sys, swp);
    let mut out: Vec<String> = Vec::new();
    let mut i: usize = 0;
    while i < disks.len()
        invariant
            i <= disks@.len(),
            system_disk@ == sys,
            swap_disk@ == swp,
            pred == (|d: Seq<char>| is_data_disk(d, sys, swp)),
            views(out@) == views(disks@).take(i as int).filter(pred),
        decreases disks@.len() - i,
    {
        let disk = &disks[i];
        proof {
            reveal(Seq::filter);
            assert(views(disks@).take(i + 1).drop_last() =~= views(disks@).take(i as int));
            assert(views(disks@).take(i + 1).last() == disk@);
        }
        if !contains_str(disk.as_str(), system_disk) && !contains_str(disk.as_str(), swap_disk)
            && has_data_disk_naming_exec(disk.as_str()) {
            out.push(disk.clone());
            assert(views(out@) =~= views(disks@).take(i + 1).filter(pred));
        } else {
            assert(views(out@) =~= views(disks@).take(i + 1).filter(pred));
        }
        i += 1;
    }
    assert(views(disks@).take(i as int) =~= views(disks@));
    proof {
        assert forall|k: int| 0 <= k < out@.len() implies {
            let d = #[trigger] out@[k]@;
            &&& !has_substr(d, sys)
            &&& !has_substr(d, swp)
            &&& has_data_disk_naming(d)
        } by {
            views(disks@).lemma_filter_pred(pred, k);
            assert(views(out@)[k] == out@[k]@);
        }
    }
    out
}

} // verus!
