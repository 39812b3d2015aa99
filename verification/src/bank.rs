//! The clip bank: one pre-loaded audio clip per intensity level.
//!
//! Decoding a clip file is the audio engine's work; what is verified here
//! is the shape the bank guarantees once assembled — exactly one clip per
//! level, looked up by `level - 1` — and the startup validation that finds
//! the first missing indexed clip file.

use vstd::prelude::*;

verus! {

/// An ordered bank of clips, one per intensity level; level `l` plays the
/// clip at index `l - 1`.
pub struct ClipBank<C> {
    clips: Vec<C>,
}

impl<C> ClipBank<C> {
    /// The clips in level order.
    pub closed spec fn spec_clips(&self) -> Seq<C> {
        self.clips@
    }

    /// Assembles a bank from the decoded clips, refusing any count other
    /// than the expected one; on refusal the actual count is reported.
    pub fn from_clips(clips: Vec<C>, expected: usize) -> (r: Result<ClipBank<C>, usize>)
        ensures
            match r {
                Ok(bank) => clips@.len() == expected && bank.spec_clips() == clips@,
                Err(actual) => actual == clips@.len() && clips@.len() != expected,
            },
    {
        if clips.len() == expected {
            Ok(ClipBank { clips })
        } else {
            Err(clips.len())
        }
    }

    /// How many levels the bank serves.
    pub fn len(&self) -> (n: usize)
        ensures
            n == self.spec_clips().len(),
    {
        self.clips.len()
    }

    /// The clip for one intensity level; levels are one-based.
    pub fn get(&self, level: u64) -> (c: &C)
        requires
            1 <= level <= self.spec_clips().len(),
        ensures
            *c == self.spec_clips()[level - 1],
    {
        let n: usize = self.clips.len();
        assert(level <= n);
        &self.clips[(level as usize) - 1]
    }
}

/// Finds the first missing clip file, given for each index in `0..count`
/// whether `{directory}/{index}.{format}` exists: returns the lowest index
/// whose file is absent, or nothing when every file is present. Startup
/// fails fast on the reported index.
pub fn first_missing_clip(present: &Vec<bool>) -> (r: Option<usize>)
    ensures
        match r {
            None => forall|i: int| 0 <= i < present@.len() ==> present@[i],
            Some(missing) => missing < present@.len() && !present@[missing as int]
                && forall|j: int| 0 <= j < missing ==> present@[j],
        },
{
    let mut i: usize = 0;
    while i < present.len()
        invariant
            i <= present@.len(),
            forall|j: int| 0 <= j < i ==> present@[j],
        decreases present@.len() - i,
    {
        if !present[i] {
            return Some(i);
        }
        i = i + 1;
    }
    None
}

} // verus!
