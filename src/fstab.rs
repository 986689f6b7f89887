//! The persistent mount table, as its lines: purging the entries of a device
//! and adding the entry of the data volume.
use vstd::prelude::*;
use crate::disks::views;
use crate::text::{contains_str, has_substr, occurs_at};

verus! {

/// The table without every line that mentions `disk`.
pub open spec fn purged(table: Seq<Seq<char>>, disk: Seq<char>) -> Seq<Seq<char>> {
    table.filter(|l: Seq<char>| !has_substr(l, disk))
}

/// The lines of the table that mention `disk`.
pub open spec fn entries_for(table: Seq<Seq<char>>, disk: Seq<char>) -> Seq<Seq<char>> {
    table.filter(|l: Seq<char>| has_substr(l, disk))
}

/// The table entry that mounts the device `/dev/<disk>` at the data mount
/// point with xfs and the project-quota options, never dumped or checked.
pub open spec fn fstab_line(disk: Seq<char>) -> Seq<char> {
    "/dev/"@ + disk + " /root/data xfs defaults,prjquota 0 0"@
}

/// Removes every line of the mount table that mentions `disk`. A disk that no
/// line mentions leaves the table as it is.
pub fn remove_disk_from_fstab(table: &Vec<String>, disk: &str) -> (r: Vec<String>)
    ensures
        views(r@) == purged(views(table@), disk@),
{
    let ghost pred = |l: Seq<char>| !has_substr(l, disk@);
    let mut out: Vec<String> = Vec::new();
    let mut i: usize = 0;
    while i < table.len()
        invariant
            i <= table@.len(),
            pred == (|l: Seq<char>| !has_substr(l, disk@)),
            views(out@) == views(table@).take(i as int).filter(pred),
        decreases table@.len() - i,
    {
        let line = &table[i];
        proof {
            reveal(Seq::filter);
            assert(views(table@).take(i + 1).drop_last() =~= views(table@).take(i as int));
            assert(views(table@).take(i + 1).last() == line@);
        }
        if !contains_str(line.as_str(), disk) {
            out.push(line.clone());
        }
        assert(views(out@) =~= views(table@).take(i + 1).filter(pred));
        i += 1;
    }
    assert(views(table@).take(i as int) =~= views(table@));
    out
}

/// `line` mentions none of `disks`.
pub open spec fn mentions_none(line: Seq<char>, disks: Seq<Seq<char>>) -> bool {
    forall|k: int| 0 <= k < disks.len() ==> !has_substr(line, #[trigger] disks[k])
}

/// The table without every line that mentions one of `disks`.
pub open spec fn purged_all(table: Seq<Seq<char>>, disks: Seq<Seq<char>>) -> Seq<Seq<char>> {
    table.filter(|l: Seq<char>| mentions_none(l, disks))
}

fn mentions_none_exec(line: &str, disks: &Vec<String>) -> (r: bool)
    ensures
        r == mentions_none(line@, views(disks@)),
{
    let mut k: usize = 0;
    while k < disks.len()
        invariant
            k <= disks@.len(),
            forall|j: int| 0 <= j < k ==> !has_substr(line@, #[trigger] views(disks@)[j]),
        decreases disks@.len() - k,
    {
        if contains_str(line, disks[k].as_str()) {
            assert(views(disks@)[k as int] == disks@[k as int]@);
            return false;
        }
        k += 1;
    }
    true
}

/// Removes, before the pool takes them over, every line of the mount table
/// that mentions one of the data disks; the other lines stay, in order.
pub fn purge_data_disks(table: &Vec<String>, disks: &Vec<String>) -> (r: Vec<String>)
    ensures
        views(r@) == purged_all(views(table@), views(disks@)),
{
    let ghost pred = |l: Seq<char>| mentions_none(l, views(disks@));
    let mut out: Vec<String> = Vec::new();
    let mut i: usize = 0;
    while i < table.len()
        invariant
            i <= table@.len(),
            pred == (|l: Seq<char>| mentions_none(l, views(disks@))),
            views(out@) == views(table@).take(i as int).filter(pred),
        decreases table@.len() - i,
    {
        let line = &table[i];
        proof {
            reveal(Seq::filter);
            assert(views(table@).take(i + 1).drop_last() =~= views(table@).take(i as int));
            assert(views(table@).take(i + 1).last() == line@);
        }
        if mentions_none_exec(line.as_str(), disks) {
            out.push(line.clone());
        }
        assert(views(out@) =~= views(table@).take(i + 1).filter(pred));
        i += 1;
    }
    assert(views(table@).take(i as int) =~= views(table@));
    out
}

/// The mount-table entry of the device `/dev/<disk>`.
pub fn fstab_entry(disk: &str) -> (r: String)
    ensures
        r@ == fstab_line(disk@),
{
    let mut line = String::from_str("/dev/");
    line.append(disk);
    line.append(" /root/data xfs defaults,prjquota 0 0");
    line
}

/// Appends the entry of the device `/dev/<disk>` to the mount table.
pub fn add_disk_to_fstab(table: &Vec<String>, disk: &str) -> (r: Vec<String>)
    ensures
        views(r@) == views(table@).push(fstab_line(disk@)),
{
    let mut out = table.clone();
    let line = fstab_entry(disk);
    out.push(line);
    assert(views(out@) =~= views(table@).push(fstab_line(disk@)));
    out
}

proof fn lemma_filter_keeps_all<A>(s: Seq<A>, p: spec_fn(A) -> bool)
    requires
        forall|i: int| 0 <= i < s.len() ==> p(#[trigger] s[i]),
    ensures
        s.filter(p) == s,
    decreases s.len(),
{
    reveal(Seq::filter);
    if s.len() > 0 {
        lemma_filter_keeps_all(s.drop_last(), p);
        assert(s.drop_last().push(s.last()) =~= s);
    }
}

proof fn lemma_filter_keeps_none<A>(s: Seq<A>, p: spec_fn(A) -> bool)
    requires
        forall|i: int| 0 <= i < s.len() ==> !p(#[trigger] s[i]),
    ensures
        s.filter(p).len() == 0,
    decreases s.len(),
{
    reveal(Seq::filter);
    if s.len() > 0 {
        lemma_filter_keeps_none(s.drop_last(), p);
    }
}

/// The entry of a device mentions the device.
pub proof fn lemma_entry_mentions_disk(disk: Seq<char>)
    ensures
        has_substr(fstab_line(disk), disk),
{
    reveal_strlit("/dev/");
    let line = fstab_line(disk);
    assert(line.subrange(5, 5 + disk.len() as int) =~= disk);
    assert(occurs_at(line, disk, 5));
}

/// Purging a device from the mount table and then adding its entry leaves
/// exactly one entry that mentions the device: the one just added.
pub proof fn lemma_purge_then_persist(table: Seq<Seq<char>>, disk: Seq<char>)
    ensures
        entries_for(purged(table, disk).push(fstab_line(disk)), disk) == seq![fstab_line(disk)],
{
    let p = purged(table, disk);
    let keep = |l: Seq<char>| !has_substr(l, disk);
    let mention = |l: Seq<char>| has_substr(l, disk);
    assert forall|i: int| 0 <= i < p.len() implies !mention(#[trigger] p[i]) by {
        table.lemma_filter_pred(keep, i);
    }
    lemma_filter_keeps_none(p, mention);
    lemma_entry_mentions_disk(disk);
    reveal(Seq::filter);
    assert(p.push(fstab_line(disk)).drop_last() =~= p);
    assert(entries_for(p.push(fstab_line(disk)), disk) =~= seq![fstab_line(disk)]);
}

/// Purging a device that no line of the mount table mentions changes nothing.
pub proof fn lemma_purge_absent_is_noop(table: Seq<Seq<char>>, disk: Seq<char>)
    requires
        forall|i: int| 0 <= i < table.len() ==> !has_substr(#[trigger] table[i], disk),
    ensures
        purged(table, disk) == table,
{
    lemma_filter_keeps_all(table, |l: Seq<char>| !has_substr(l, disk));
}

} // verus!
