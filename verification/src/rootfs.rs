//! The substitute root tree: its fixed path, the isolated hostname, and the
//! invocation of the external provisioning tool that populates the tree.

use vstd::prelude::*;

verus! {

/// The fixed path of the substitute root tree.
pub fn root_path() -> (r: &'static str)
    ensures
        r@ == "/home/ubuntu-fs"@,
{
    "/home/ubuntu-fs"
}

/// The hostname assigned inside the new namespace set.
pub fn isolated_hostname() -> (r: &'static str)
    ensures
        r@ == "container"@,
{
    "container"
}

/// The name of the external tool that populates the root tree.
pub fn provision_tool() -> (r: &'static str)
    ensures
        r@ == "debootstrap"@,
{
    "debootstrap"
}

/// The processor architecture, as far as mirror selection cares.
#[derive(Clone, Copy, Debug, PartialEq, Eq)]
pub enum CpuArch {
    /// A 64-bit ARM machine.
    Aarch64,
    /// Any other architecture.
    Other,
}

/// The package mirror the provisioning tool fetches from: ARM64 targets use
/// the ports mirror, everything else the main archive.
pub fn mirror_for(arch: &CpuArch) -> (r: &'static str)
    ensures
        arch is Aarch64 ==> r@ == "http://ports.ubuntu.com/ubuntu-ports"@,
        !(arch is Aarch64) ==> r@ == "http://archive.ubuntu.com/ubuntu"@,
{
    match arch {
        CpuArch::Aarch64 => "http://ports.ubuntu.com/ubuntu-ports",
        CpuArch::Other => "http://archive.ubuntu.com/ubuntu",
    }
}

/// The argument vector for the provisioning tool: the minimal-variant flag,
/// the fixed distribution release, the target path, and the mirror, in that
/// order.
pub fn provision_args<'a>(root: &'a str, mirror: &'a str) -> (r: Vec<&'a str>)
    ensures
        r@.len() == 4,
        r@[0]@ == "--variant=minbase"@,
        r@[1]@ == "jammy"@,
        r@[2]@ == root@,
        r@[3]@ == mirror@,
{
    let mut r: Vec<&'a str> = Vec::new();
    r.push("--variant=minbase");
    r.push("jammy");
    r.push(root);
    r.push(mirror);
    r
}

} // verus!
