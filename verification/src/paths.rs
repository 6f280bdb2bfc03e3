//! The names under which the worker finds what the host names by a POSIX
//! path, and the name of the file behind the shared region.

use vstd::prelude::*;
use vstd::string::{StrSliceExecFns, StringExecFns};
use crate::text::{decimal, decimal_string, lemma_decimal_digits, lemma_decimal_injective};

verus! {

/// A path as the worker sees it: an absolute POSIX path stands on the drive
/// that maps the root of the file system; any other path is taken as it is.
pub open spec fn worker_path(path: Seq<char>) -> Seq<char> {
    if path.len() > 0 && path[0] == '/' {
        "Z:"@ + path
    } else {
        path
    }
}

/// The path as the worker sees it.
pub fn wine_path(path: &str) -> (s: String)
    ensures
        s@ == worker_path(path@),
{
    if !path.is_empty() && path.get_char(0) == '/' {
        String::from_str("Z:").concat(path)
    } else {
        String::from_str(path)
    }
}

/// The path of the file behind a shared region: a fixed stem, the id of the
/// host's process, and a counter that the host never uses twice.
pub open spec fn region_path(pid: u32, counter: u32) -> Seq<char> {
    "/tmp/rack-wine-audio-"@ + decimal(pid as nat) + "-"@ + decimal(counter as nat)
}

/// Two regions have the same path only where process and counter are the
/// same: a counter that is never used twice gives a path that is never used
/// twice.
pub proof fn lemma_region_paths_differ(pid1: u32, counter1: u32, pid2: u32, counter2: u32)
    requires
        region_path(pid1, counter1) == region_path(pid2, counter2),
    ensures
        pid1 == pid2,
        counter1 == counter2,
{
    reveal_strlit("-");
    let stem = "/tmp/rack-wine-audio-"@;
    let a = decimal(pid1 as nat);
    let b = decimal(pid2 as nat);
    let c = decimal(counter1 as nat);
    let d = decimal(counter2 as nat);
    let x = a + "-"@ + c;
    let y = b + "-"@ + d;
    lemma_decimal_digits(pid1 as nat);
    lemma_decimal_digits(pid2 as nat);
    assert(x == y) by {
        let whole1 = region_path(pid1, counter1);
        let whole2 = region_path(pid2, counter2);
        assert(whole1.subrange(stem.len() as int, whole1.len() as int) =~= x);
        assert(whole2.subrange(stem.len() as int, whole2.len() as int) =~= y);
    }
    assert('-' as u8 == 0x2D);
    if a.len() < b.len() {
        assert(x[a.len() as int] == '-');
        assert(y[a.len() as int] == b[a.len() as int]);
        assert(false);
    }
    if b.len() < a.len() {
        assert(y[b.len() as int] == '-');
        assert(x[b.len() as int] == a[b.len() as int]);
        assert(false);
    }
    assert(a =~= x.subrange(0, a.len() as int));
    assert(b =~= y.subrange(0, b.len() as int));
    assert(c =~= x.subrange(a.len() as int + 1, x.len() as int));
    assert(d =~= y.subrange(b.len() as int + 1, y.len() as int));
    lemma_decimal_injective(pid1 as nat, pid2 as nat);
    lemma_decimal_injective(counter1 as nat, counter2 as nat);
}

/// The path of the file behind a shared region.
pub fn shm_path(pid: u32, counter: u32) -> (s: String)
    ensures
        s@ == region_path(pid, counter),
{
    let pid_digits: String = decimal_string(pid as u64);
    let counter_digits: String = decimal_string(counter as u64);
    String::from_str("/tmp/rack-wine-audio-").concat(pid_digits.as_str()).concat("-").concat(
        counter_digits.as_str(),
    )
}

/// The name under which the worker opens the file behind a shared region:
/// its path on the drive that maps the root of the file system.
pub fn wine_shm_name(shm_path: &str) -> (s: String)
    ensures
        s@ == "Z:"@ + shm_path@,
{
    String::from_str("Z:").concat(shm_path)
}

} // verus!
