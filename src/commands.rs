//! The external commands that provisioning issues, as plain values that a
//! runner executes.
use vstd::prelude::*;
use crate::disks::views;
use crate::volume::{volume_size, volume_size_of};

verus! {

/// An external program and its arguments.
pub struct ToolCall {
    pub program: String,
    pub args: Vec<String>,
}

impl ToolCall {
    /// The program and the arguments, as character sequences.
    pub open spec fn view_parts(&self) -> (Seq<char>, Seq<Seq<char>>) {
        (self.program@, views(self.args@))
    }
}

/// Builds a call of `program` with the arguments `args`.
pub fn tool_call(program: &str, args: &[&str]) -> (r: ToolCall)
    ensures
        r.program@ == program@,
        views(r.args@) == args@.map_values(|a: &str| a@),
{
    let mut out: Vec<String> = Vec::new();
    let mut i: usize = 0;
    while i < args.len()
        invariant
            i <= args@.len(),
            views(out@) == args@.take(i as int).map_values(|a: &str| a@),
        decreases args@.len() - i,
    {
        let ghost prev = out@;
        let arg = String::from_str(args[i]);
        out.push(arg);
        assert(out@ == prev.push(arg));
        assert(views(out@) =~= views(prev).push(args@[i as int]@));
        assert(args@.take(i + 1) =~= args@.take(i as int).push(args@[i as int]));
        i += 1;
    }
    assert(args@.take(i as int) =~= args@);
    ToolCall { program: String::from_str(program), args: out }
}

/// Appends owned arguments to a call.
pub fn with_args(call: ToolCall, extra: &Vec<String>) -> (r: ToolCall)
    ensures
        r.program@ == call.program@,
        views(r.args@) == views(call.args@) + views(extra@),
{
    let ToolCall { program, mut args } = call;
    let ghost first = views(args@);
    let mut i: usize = 0;
    while i < extra.len()
        invariant
            i <= extra@.len(),
            views(args@) == first + views(extra@).take(i as int),
        decreases extra@.len() - i,
    {
        let ghost prev = args@;
        let arg = extra[i].clone();
        args.push(arg);
        assert(views(args@) =~= views(prev).push(extra@[i as int]@));
        assert(views(extra@).take(i + 1) =~= views(extra@).take(i as int).push(extra@[i as int]@));
        assert(views(args@) =~= first + views(extra@).take(i + 1));
        i += 1;
    }
    assert(views(extra@).take(i as int) =~= views(extra@));
    ToolCall { program, args }
}

/// The listing of block devices with their type and mount point, read by the
/// system-disk lookup.
pub fn system_listing_call() -> (r: ToolCall)
    ensures
        r.view_parts() == ("lsblk"@, seq!["-o"@, "NAME,TYPE,MOUNTPOINT"@]),
{
    let r = tool_call("lsblk", &["-o", "NAME,TYPE,MOUNTPOINT"]);
    assert(r.view_parts().1 =~= seq!["-o"@, "NAME,TYPE,MOUNTPOINT"@]);
    r
}

/// The filesystem listing read by the swap-disk lookup.
pub fn swap_listing_call() -> (r: ToolCall)
    ensures
        r.view_parts() == ("lsblk"@, seq!["-f"@]),
{
    let r = tool_call("lsblk", &["-f"]);
    assert(r.view_parts().1 =~= seq!["-f"@]);
    r
}

/// The listing of whole disks by full device path, one per line.
pub fn inventory_call() -> (r: ToolCall)
    ensures
        r.view_parts() == ("lsblk"@, seq!["-dpno"@, "NAME"@]),
{
    let r = tool_call("lsblk", &["-dpno", "NAME"]);
    assert(r.view_parts().1 =~= seq!["-dpno"@, "NAME"@]);
    r
}

/// The free-space query of the pool named `pool`, in exact bytes.
pub fn free_space_call(pool: &str) -> (r: ToolCall)
    ensures
        r.view_parts() == ("zpool"@, seq!["list"@, "-H"@, "-o"@, "free"@, "-p"@, pool@]),
{
    let r = tool_call("zpool", &["list", "-H", "-o", "free", "-p", pool]);
    assert(r.view_parts().1 =~= seq!["list"@, "-H"@, "-o"@, "free"@, "-p"@, pool@]);
    r
}

/// The size query of one disk, in bytes and without a header.
pub fn disk_size_call(disk: &str) -> (r: ToolCall)
    ensures
        r.view_parts() == ("lsblk"@, seq!["-b"@, "-o"@, "SIZE"@, "--noheadings"@, disk@]),
{
    let r = tool_call("lsblk", &["-b", "-o", "SIZE", "--noheadings", disk]);
    assert(r.view_parts().1 =~= seq!["-b"@, "-o"@, "SIZE"@, "--noheadings"@, disk@]);
    r
}

/// The call that probes whether the pool tooling is present.
pub fn zfs_probe_call() -> (r: ToolCall)
    ensures
        r.view_parts() == ("zfs"@, Seq::<Seq<char>>::empty()),
{
    let r = tool_call("zfs", &[]);
    assert(r.view_parts().1 =~= Seq::<Seq<char>>::empty());
    r
}

/// What installing the pool tooling takes: nothing when the probe found it,
/// else the package installation.
pub fn install_zfs(tool_present: bool) -> (r: Option<ToolCall>)
    ensures
        tool_present ==> r is None,
        !tool_present ==> r is Some && r->Some_0.view_parts() == (
            "apt"@,
            seq!["install"@, "-y"@, "zfsutils-linux"@],
        ),
{
    if tool_present {
        None
    } else {
        let r = tool_call("apt", &["install", "-y", "zfsutils-linux"]);
        assert(r.view_parts().1 =~= seq!["install"@, "-y"@, "zfsutils-linux"@]);
        Some(r)
    }
}

/// The forced creation of the pool `disk` from the data disks, in order.
pub fn install_zfs_pool(disks: &Vec<String>) -> (r: ToolCall)
    ensures
        r.view_parts() == ("zpool"@, seq!["create"@, "disk"@, "-f"@] + views(disks@)),
{
    let base = tool_call("zpool", &["create", "disk", "-f"]);
    assert(views(base.args@) =~= seq!["create"@, "disk"@, "-f"@]);
    with_args(base, disks)
}

/// The decimal numeral of `n`, most significant digit first, without leading
/// zeros.
pub open spec fn decimal_text(n: nat) -> Seq<char>
    decreases n,
{
    if n < 10 {
        seq![digit_char(n)]
    } else {
        decimal_text(n / 10).push(digit_char(n % 10))
    }
}

/// The character of the decimal digit `d`.
pub open spec fn digit_char(d: nat) -> char {
    (('0' as nat) + d) as char
}

/// The one-character string of the decimal digit `d`.
fn digit_str(d: u64) -> (r: &'static str)
    requires
        d < 10,
    ensures
        r@ == seq![digit_char(d as nat)],
{
    proof {
        reveal_strlit("0");
        reveal_strlit("1");
        reveal_strlit("2");
        reveal_strlit("3");
        reveal_strlit("4");
        reveal_strlit("5");
        reveal_strlit("6");
        reveal_strlit("7");
        reveal_strlit("8");
        reveal_strlit("9");
    }
    let r = match d {
        0 => "0",
        1 => "1",
        2 => "2",
        3 => "3",
        4 => "4",
        5 => "5",
        6 => "6",
        7 => "7",
        8 => "8",
        _ => "9",
    };
    assert(r@ =~= seq![digit_char(d as nat)]);
    r
}

/// The decimal numeral of `n`.
pub fn decimal_numeral(n: u64) -> (r: String)
    ensures
        r@ == decimal_text(n as nat),
    decreases n,
{
    if n < 10 {
        String::from_str(digit_str(n))
    } else {
        let mut r = decimal_numeral(n / 10);
        r.append(digit_str(n % 10));
        r
    }
}

/// The creation of the volume `disk/data`, sized by `volume_size` from the
/// pool's free bytes.
pub fn install_zfs_create(free: u64) -> (r: ToolCall)
    ensures
        r.view_parts() == (
            "zfs"@,
            seq!["create"@, "-V"@, decimal_text(volume_size_of(free as nat)), "disk/data"@],
        ),
{
    let size = decimal_numeral(volume_size(free));
    let r = tool_call("zfs", &["create", "-V", size.as_str(), "disk/data"]);
    assert(r.view_parts().1 =~= seq![
        "create"@,
        "-V"@,
        decimal_text(volume_size_of(free as nat)),
        "disk/data"@,
    ]);
    r
}

/// Formatting the volume device with xfs, overwriting any earlier signature.
pub fn install_xfs() -> (r: ToolCall)
    ensures
        r.view_parts() == ("mkfs.xfs"@, seq!["-f"@, "/dev/zd0"@]),
{
    let r = tool_call("mkfs.xfs", &["-f", "/dev/zd0"]);
    assert(r.view_parts().1 =~= seq!["-f"@, "/dev/zd0"@]);
    r
}

/// Creating the mount point and its parents.
pub fn install_mkdir_dir() -> (r: ToolCall)
    ensures
        r.view_parts() == ("mkdir"@, seq!["-p"@, "/root/data"@]),
{
    let r = tool_call("mkdir", &["-p", "/root/data"]);
    assert(r.view_parts().1 =~= seq!["-p"@, "/root/data"@]);
    r
}

/// Mounting the volume at the mount point with the fixed options.
pub fn install_mount_dir() -> (r: ToolCall)
    ensures
        r.view_parts() == (
            "mount"@,
            seq!["-t"@, "xfs"@, "-o"@, "defaults,prjquota"@, "/dev/zd0"@, "/root/data"@],
        ),
{
    let r = tool_call("mount", &["-t", "xfs", "-o", "defaults,prjquota", "/dev/zd0", "/root/data"]);
    assert(r.view_parts().1 =~= seq![
        "-t"@,
        "xfs"@,
        "-o"@,
        "defaults,prjquota"@,
        "/dev/zd0"@,
        "/root/data"@,
    ]);
    r
}

} // verus!
