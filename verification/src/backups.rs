//! Database backups made at shutdown: which files in the backup directory
//! are backups, and which of them are old enough to delete.
use vstd::prelude::*;
use crate::clock::Timestamp;
use crate::path::{extension, extension_of};
use crate::text::{chars_of, eq_str, texts};

verus! {

/// How many of the most recent backups are kept.
pub const MAX_BACKUPS: usize = 5;

/// A backup file is a file whose extension is exactly `db`.
pub open spec fn backup_file(path: Seq<char>) -> bool {
    extension(path, false) == Some("db"@)
}

/// Whether a file in the backup directory is a backup.
pub fn is_backup_file(path: &str) -> (res: bool)
    ensures
        res == backup_file(path@),
{
    match extension_of(chars_of(path).as_slice(), false) {
        Some(e) => {
            let r = eq_str(e.as_slice(), "db");
            proof {
                if r {
                    assert(e@ == "db"@);
                }
            }
            r
        },
        None => false,
    }
}

/// `a` is a later time than `b`.
pub open spec fn later(a: Timestamp, b: Timestamp) -> bool {
    a.secs > b.secs || (a.secs == b.secs && a.nanos > b.nanos)
}

/// In the newest-first order of the backups `s` (ties keep their order),
/// backup `j` comes before backup `i`.
pub open spec fn ahead(s: Seq<(String, Timestamp)>, j: int, i: int) -> bool {
    later(s[j].1, s[i].1) || (s[j].1 == s[i].1 && j < i)
}

/// How many of the first `n` backups come before backup `i`.
pub open spec fn count_ahead(s: Seq<(String, Timestamp)>, i: int, n: nat) -> nat
    decreases n,
{
    if n == 0 {
        0
    } else {
        count_ahead(s, i, (n - 1) as nat) + if ahead(s, n - 1, i) { 1nat } else { 0nat }
    }
}

/// The place of backup `i` in the newest-first order.
pub open spec fn rank(s: Seq<(String, Timestamp)>, i: int) -> nat {
    count_ahead(s, i, s.len())
}

/// The paths, in list order, of the first `n` backups that `keep` newer
/// ones come before.
pub open spec fn stale(s: Seq<(String, Timestamp)>, keep: nat, n: nat) -> Seq<Seq<char>>
    decreases n,
{
    if n == 0 {
        Seq::empty()
    } else {
        let r = stale(s, keep, (n - 1) as nat);
        if rank(s, n - 1) >= keep {
            r.push(s[n - 1].0@)
        } else {
            r
        }
    }
}

fn is_later(a: Timestamp, b: Timestamp) -> (res: bool)
    ensures
        res == later(a, b),
{
    a.secs > b.secs || (a.secs == b.secs && a.nanos > b.nanos)
}

fn rank_of(s: &Vec<(String, Timestamp)>, i: usize) -> (res: usize)
    requires
        i < s.len(),
    ensures
        res == rank(s@, i as int),
{
    let mut c: usize = 0;
    let mut j: usize = 0;
    while j < s.len()
        invariant
            i < s.len(),
            j <= s.len(),
            c == count_ahead(s@, i as int, j as nat),
            c <= j,
        decreases s.len() - j,
    {
        let tj = s[j].1;
        let ti = s[i].1;
        if is_later(tj, ti) || (tj.secs == ti.secs && tj.nanos == ti.nanos && j < i) {
            c = c + 1;
        }
        j = j + 1;
    }
    c
}

/// The backups to delete so that only the `keep` most recent remain
/// (newest first by modification time, ties in list order); they are
/// given in list order.
pub fn stale_backups(backups: &Vec<(String, Timestamp)>, keep: usize) -> (res: Vec<String>)
    ensures
        texts(res@) == stale(backups@, keep as nat, backups@.len()),
{
    let mut r: Vec<String> = Vec::new();
    let mut i: usize = 0;
    while i < backups.len()
        invariant
            i <= backups.len(),
            texts(r@) == stale(backups@, keep as nat, i as nat),
        decreases backups.len() - i,
    {
        if rank_of(backups, i) >= keep {
            let ghost prev = r@;
            r.push(backups[i].0.clone());
            proof {
                assert(texts(r@) =~= texts(prev).push(backups@[i as int].0@));
            }
        }
        i = i + 1;
    }
    r
}

proof fn lemma_count_mono(s: Seq<(String, Timestamp)>, i: int, k: int, n: nat)
    requires
        forall|j: int| 0 <= j < n && ahead(s, j, k) ==> ahead(s, j, i),
    ensures
        count_ahead(s, k, n) <= count_ahead(s, i, n),
    decreases n,
{
    if n > 0 {
        lemma_count_mono(s, i, k, (n - 1) as nat);
    }
}

proof fn lemma_count_strict(s: Seq<(String, Timestamp)>, i: int, k: int, n: nat)
    requires
        0 <= k < n,
        forall|j: int| 0 <= j < n && ahead(s, j, k) ==> ahead(s, j, i),
        ahead(s, k, i),
        !ahead(s, k, k),
    ensures
        count_ahead(s, k, n) + 1 <= count_ahead(s, i, n),
    decreases n,
{
    if k == n - 1 {
        lemma_count_mono(s, i, k, (n - 1) as nat);
    } else {
        lemma_count_strict(s, i, k, (n - 1) as nat);
    }
}

/// Every backup that is kept is at least as recent as every backup that is
/// deleted.
pub proof fn law_kept_backups_are_newest(s: Seq<(String, Timestamp)>, keep: nat, i: int, k: int)
    requires
        0 <= i < s.len(),
        0 <= k < s.len(),
        rank(s, i) < keep,
        rank(s, k) >= keep,
    ensures
        !later(s[k].1, s[i].1),
{
    if later(s[k].1, s[i].1) {
        assert forall|j: int| 0 <= j < s.len() && ahead(s, j, k) implies ahead(s, j, i) by {
        }
        lemma_count_strict(s, i, k, s.len());
    }
}

} // verus!
