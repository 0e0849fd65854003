//! The thumbnail queue.
//!
//! Every image of the catalog has a cache status. New images are
//! `pending`. Thumbnails are generated in two passes: the fast pass tries
//! the embedded JPEGs and hands what it cannot do to the slow pass, which
//! decodes the file and is run only when nothing is pending any more.

use vstd::prelude::*;
use vstd::string::*;

verus! {

/// Images that one fast pass takes.
pub const FAST_BATCH: usize = 5;

/// Images that one slow pass takes.
pub const SLOW_BATCH: usize = 1;

/// The cache status of an image.
#[derive(Clone, Copy, Debug, PartialEq, Eq, Structural)]
pub enum CacheStatus {
    /// No thumbnail yet; the fast pass has not tried.
    Pending,
    /// The thumbnail is on disk.
    Cached,
    /// The fast pass failed; the slow pass is to try.
    NeedsSlow,
    /// Both passes failed.
    Failed,
}

/// The pass that generates thumbnails next.
#[derive(Clone, Copy, Debug, PartialEq, Eq, Structural)]
pub enum Pass {
    /// The fast pass, on at most this many pending images.
    Fast(usize),
    /// The slow pass, on at most this many images that need it.
    Slow(usize),
    /// Nothing is left to do.
    Idle,
}

impl CacheStatus {
    /// The status as the catalog stores it.
    pub open spec fn name(self) -> Seq<char> {
        match self {
            CacheStatus::Pending => seq!['p', 'e', 'n', 'd', 'i', 'n', 'g'],
            CacheStatus::Cached => seq!['c', 'a', 'c', 'h', 'e', 'd'],
            CacheStatus::NeedsSlow => seq!['n', 'e', 'e', 'd', 's', '_', 's', 'l', 'o', 'w'],
            CacheStatus::Failed => seq!['f', 'a', 'i', 'l', 'e', 'd'],
        }
    }

    /// The status after a pass tried to generate the thumbnail. A
    /// thumbnail that was generated is cached. A pending image that the
    /// fast pass could not do is handed to the slow pass; an image that
    /// the slow pass could not do has failed. A status that no pass works
    /// on stays as it is.
    pub open spec fn after_attempt_spec(self, generated: bool) -> CacheStatus {
        match self {
            CacheStatus::Pending => if generated {
                CacheStatus::Cached
            } else {
                CacheStatus::NeedsSlow
            },
            CacheStatus::NeedsSlow => if generated {
                CacheStatus::Cached
            } else {
                CacheStatus::Failed
            },
            other => other,
        }
    }

    /// The status as the catalog stores it.
    pub fn as_str(self) -> (name: &'static str)
        ensures
            name@ == self.name(),
    {
        proof {
            reveal_strlit("pending");
            reveal_strlit("cached");
            reveal_strlit("needs_slow");
            reveal_strlit("failed");
        }
        let name = match self {
            CacheStatus::Pending => "pending",
            CacheStatus::Cached => "cached",
            CacheStatus::NeedsSlow => "needs_slow",
            CacheStatus::Failed => "failed",
        };
        assert(name@ =~= self.name());
        name
    }

    /// The status after a pass tried to generate the thumbnail.
    #[verifier::when_used_as_spec(after_attempt_spec)]
    pub fn after_attempt(self, generated: bool) -> (next: CacheStatus)
        ensures
            next == self.after_attempt_spec(generated),
    {
        match self {
            CacheStatus::Pending => if generated {
                CacheStatus::Cached
            } else {
                CacheStatus::NeedsSlow
            },
            CacheStatus::NeedsSlow => if generated {
                CacheStatus::Cached
            } else {
                CacheStatus::Failed
            },
            other => other,
        }
    }

    /// The status of a cached image whose thumbnail was looked for on
    /// disk: pending again where the file is gone.
    pub fn after_verification(self, file_exists: bool) -> (next: CacheStatus)
        ensures
            next == if self == CacheStatus::Cached && !file_exists {
                CacheStatus::Pending
            } else {
                self
            },
    {
        match self {
            CacheStatus::Cached => if file_exists {
                CacheStatus::Cached
            } else {
                CacheStatus::Pending
            },
            other => other,
        }
    }
}

/// The pass to run, given how many images are pending and how many wait
/// for the slow pass: the fast pass as long as anything is pending, then
/// the slow pass, then nothing.
pub fn next_pass(pending: u64, needs_slow: u64) -> (pass: Pass)
    ensures
        pass == if pending > 0 {
            Pass::Fast(FAST_BATCH)
        } else if needs_slow > 0 {
            Pass::Slow(SLOW_BATCH)
        } else {
            Pass::Idle
        },
{
    if pending > 0 {
        Pass::Fast(FAST_BATCH)
    } else if needs_slow > 0 {
        Pass::Slow(SLOW_BATCH)
    } else {
        Pass::Idle
    }
}

/// No image is tried for ever. A thumbnail that is generated is cached; a
/// pending image that both passes fail on has failed; and what is cached
/// or has failed is not changed by any further attempt.
pub proof fn lemma_attempts_end(status: CacheStatus, generated: bool)
    ensures
        status == CacheStatus::Pending || status == CacheStatus::NeedsSlow
            ==> status.after_attempt(true) == CacheStatus::Cached,
        CacheStatus::Pending.after_attempt(false).after_attempt(false) == CacheStatus::Failed,
        CacheStatus::Cached.after_attempt(generated) == CacheStatus::Cached,
        CacheStatus::Failed.after_attempt(generated) == CacheStatus::Failed,
{
}

} // verus!
