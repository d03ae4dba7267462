//! The resource limiter: the pid-count cgroup this launcher confines the
//! child under, as a plan of file writes with exact contents.
//!
//! The limiter is a fixed cgroup directory holding three files: the pid
//! ceiling, the release-notification flag, and the membership list. The plan
//! computed here says which file gets which bytes, in order; the unverified
//! shell creates the directory and performs the writes, and any failure is
//! fatal to the bootstrap (an unenforced limit is worse than refusing to
//! launch).

use vstd::prelude::*;

verus! {

/// The fixed pid-count ceiling written to the cgroup.
pub const PID_CEILING: u64 = 20;

/// The decimal numeral of `n`, most significant digit first, as ASCII
/// bytes.
pub open spec fn decimal_digits(n: nat) -> Seq<u8>
    decreases n,
{
    if n < 10 {
        seq![(48 + n) as u8]
    } else {
        decimal_digits(n / 10).push((48 + n % 10) as u8)
    }
}

/// The number a sequence of ASCII digit bytes denotes in decimal.
pub open spec fn decimal_value(s: Seq<u8>) -> nat
    decreases s.len(),
{
    if s.len() == 0 {
        0
    } else {
        (decimal_value(s.drop_last()) * 10 + (s.last() - 48)) as nat
    }
}

/// A decimal numeral is well formed — nonempty, every byte an ASCII digit,
/// no leading zero except for the numeral of zero itself — and denotes
/// exactly the number it was made from.
pub proof fn lemma_decimal_digits_correct(n: nat)
    ensures
        decimal_digits(n).len() >= 1,
        forall|i: int| 0 <= i < decimal_digits(n).len() ==> 48 <= #[trigger] decimal_digits(n)[i]
            <= 57,
        n >= 10 ==> decimal_digits(n).len() >= 2,
        decimal_digits(n).len() > 1 ==> decimal_digits(n)[0] != 48,
        decimal_value(decimal_digits(n)) == n,
    decreases n,
{
    if n < 10 {
        assert(decimal_digits(n).drop_last() =~= Seq::<u8>::empty());
        assert(decimal_value(Seq::<u8>::empty()) == 0);
    } else {
        lemma_decimal_digits_correct(n / 10);
        assert(decimal_digits(n).drop_last() =~= decimal_digits(n / 10));
        assert(decimal_digits(n)[0] == decimal_digits(n / 10)[0]);
        if n / 10 < 10 {
            assert(decimal_digits(n / 10) =~= seq![(48 + n / 10) as u8]);
        }
        vstd::arithmetic::div_mod::lemma_fundamental_div_mod(n as int, 10);
    }
}

/// Render `n` as its decimal numeral, most significant digit first.
pub fn u64_to_decimal(n: u64) -> (r: Vec<u8>)
    ensures
        r@ == decimal_digits(n as nat),
    decreases n,
{
    if n < 10 {
        let mut r: Vec<u8> = Vec::new();
        r.push(48 + (n as u8));
        proof {
            assert(r@ =~= decimal_digits(n as nat));
        }
        r
    } else {
        let mut r = u64_to_decimal(n / 10);
        r.push(48 + ((n % 10) as u8));
        proof {
            assert(r@ =~= decimal_digits(n as nat));
        }
        r
    }
}

/// The files of the pid cgroup that the limiter writes.
#[derive(Clone, Copy, Debug, PartialEq, Eq)]
pub enum CgroupFile {
    /// The pid-count ceiling.
    PidsMax,
    /// The release-notification flag.
    NotifyOnRelease,
    /// The membership list; writing a process id joins that process.
    Procs,
}

/// One write of the limiter plan: which cgroup file gets which bytes.
#[derive(Clone, Debug, PartialEq, Eq)]
pub struct CgroupWrite {
    /// The file inside the cgroup directory.
    pub file: CgroupFile,
    /// The exact bytes to write.
    pub contents: Vec<u8>,
}

/// The fixed directory of the pid cgroup.
pub fn cgroup_dir() -> (r: &'static str)
    ensures
        r@ == "/sys/fs/cgroup/pids"@,
{
    "/sys/fs/cgroup/pids"
}

/// The file name each cgroup file has inside the cgroup directory.
pub fn cgroup_file_name(f: &CgroupFile) -> (r: &'static str)
    ensures
        f is PidsMax ==> r@ == "pids.max"@,
        f is NotifyOnRelease ==> r@ == "notify_on_release"@,
        f is Procs ==> r@ == "cgroup.procs"@,
{
    match f {
        CgroupFile::PidsMax => "pids.max",
        CgroupFile::NotifyOnRelease => "notify_on_release",
        CgroupFile::Procs => "cgroup.procs",
    }
}

/// The limiter's writes for the process with identifier `pid`, in the order
/// they are performed: the pid ceiling first, so the quota is in force
/// before anything else happens, then the release-notification flag set to
/// one, then the membership write that puts `pid` under the quota. The
/// writes are idempotent, not additive: a repeated launch rewrites the same
/// files.
pub fn limiter_plan(pid: u64) -> (r: Vec<CgroupWrite>)
    ensures
        r@.len() == 3,
        r@[0].file is PidsMax,
        r@[0].contents@ == decimal_digits(PID_CEILING as nat),
        r@[1].file is NotifyOnRelease,
        r@[1].contents@ == seq![49u8],
        r@[2].file is Procs,
        r@[2].contents@ == decimal_digits(pid as nat),
{
    let mut r: Vec<CgroupWrite> = Vec::new();
    r.push(CgroupWrite { file: CgroupFile::PidsMax, contents: u64_to_decimal(PID_CEILING) });
    let mut flag: Vec<u8> = Vec::new();
    flag.push(49);
    proof {
        assert(flag@ =~= seq![49u8]);
    }
    r.push(CgroupWrite { file: CgroupFile::NotifyOnRelease, contents: flag });
    r.push(CgroupWrite { file: CgroupFile::Procs, contents: u64_to_decimal(pid) });
    r
}

} // verus!
