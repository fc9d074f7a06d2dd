//! Download progress: how much of an asset has arrived, as a share of its size.
use vstd::prelude::*;
use crate::types::PROGRESS_COMPLETE;

verus! {

/// The share of `total` bytes that `downloaded` bytes make, in ten-thousandths,
/// rounded down and capped at a whole; zero when the size is unknown (zero).
pub open spec fn progress_share(downloaded: nat, total: nat) -> nat {
    if total == 0 {
        0
    } else if downloaded * (PROGRESS_COMPLETE as nat) / total > PROGRESS_COMPLETE as nat {
        PROGRESS_COMPLETE as nat
    } else {
        downloaded * (PROGRESS_COMPLETE as nat) / total
    }
}

/// The progress shown for `downloaded` of `total` bytes, in ten-thousandths.
pub fn progress_of(downloaded: u64, total: u64) -> (p: u32)
    ensures
        p == progress_share(downloaded as nat, total as nat),
        p <= PROGRESS_COMPLETE,
{
    if total == 0 {
        return 0;
    }
    assert((downloaded as u128) * 10000 <= 0xffff_ffff_ffff_ffff * 10000) by (nonlinear_arith)
        requires
            downloaded <= 0xffff_ffff_ffff_ffffu64,
    ;
    let scaled: u128 = (downloaded as u128) * (PROGRESS_COMPLETE as u128);
    let share: u128 = scaled / (total as u128);
    if share > PROGRESS_COMPLETE as u128 {
        PROGRESS_COMPLETE
    } else {
        share as u32
    }
}

/// The bytes of one download received so far, and the size the release
/// announced for it.
#[derive(Debug)]
pub struct DownloadTally {
    pub downloaded: u64,
    pub total: u64,
}

impl DownloadTally {
    /// A download of `total` bytes of which nothing has arrived.
    pub fn new(total: u64) -> (t: DownloadTally)
        ensures
            t.downloaded == 0,
            t.total == total,
    {
        DownloadTally { downloaded: 0, total }
    }

    /// Counts a chunk of `len` bytes and gives the progress to report.
    pub fn record_chunk(&mut self, len: u64) -> (p: u32)
        requires
            old(self).downloaded + len <= u64::MAX,
        ensures
            final(self).downloaded == old(self).downloaded + len,
            final(self).total == old(self).total,
            p == progress_share(final(self).downloaded as nat, final(self).total as nat),
    {
        self.downloaded = self.downloaded + len;
        progress_of(self.downloaded, self.total)
    }
}

/// More bytes never show less progress.
pub proof fn law_progress_monotone(a: nat, b: nat, total: nat)
    requires
        a <= b,
    ensures
        progress_share(a, total) <= progress_share(b, total),
{
    if total > 0 {
        assert(a * 10000 <= b * 10000) by (nonlinear_arith)
            requires
                a <= b,
        ;
        assert(a * 10000 / total <= b * 10000 / total) by (nonlinear_arith)
            requires
                a * 10000 <= b * 10000,
                total > 0,
        ;
    }
}

/// A download is shown complete once all its bytes have arrived.
pub proof fn law_progress_complete(downloaded: nat, total: nat)
    requires
        total > 0,
        downloaded >= total,
    ensures
        progress_share(downloaded, total) == PROGRESS_COMPLETE,
{
    assert(downloaded * 10000 >= total * 10000) by (nonlinear_arith)
        requires
            downloaded >= total,
    ;
    assert(downloaded * 10000 / total >= 10000) by (nonlinear_arith)
        requires
            downloaded * 10000 >= total * 10000,
            total > 0,
    ;
}

} // verus!
