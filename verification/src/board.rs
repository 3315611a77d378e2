//! A cache of the threads of one board, each under its number.

use std::collections::HashMap;
use vstd::prelude::*;
use vstd::string::*;

use crate::thread::Thread;

verus! {

broadcast use vstd::std_specs::hash::group_hash_axioms;

/// The threads of one board, each under its number.
#[derive(Debug)]
pub struct Board {
    /// The threads, by number.
    pub threads: HashMap<u32, Thread>,
    /// The name of the board.
    pub board: String,
}

/// The first `n` threads, each under the number at its place. Where a
/// number comes twice, the later thread is the one that stays.
pub open spec fn keyed(ids: Seq<u32>, threads: Seq<Thread>, n: nat) -> Map<u32, Thread>
    decreases n,
{
    if n == 0 {
        Map::empty()
    } else {
        keyed(ids, threads, (n - 1) as nat).insert(ids[n - 1], threads[n - 1])
    }
}

/// The smaller of two lengths.
pub open spec fn shorter(a: nat, b: nat) -> nat {
    if a <= b {
        a
    } else {
        b
    }
}

impl Board {
    /// Builds the cache of `board` from the numbers its thread list gave
    /// and the threads that were fetched for them, pair by pair. What one of
    /// the two lists has beyond the other is left out.
    pub fn build(board: &str, ids: Vec<u32>, threads: Vec<Thread>) -> (made: Board)
        ensures
            made.board@ == board@,
            made.threads@ == keyed(ids@, threads@, shorter(ids@.len(), threads@.len())),
    {
        Self::pair(board.to_owned(), ids, threads)
    }

    fn pair(board: String, ids: Vec<u32>, threads: Vec<Thread>) -> (made: Board)
        ensures
            made.board == board,
            made.threads@ == keyed(ids@, threads@, shorter(ids@.len(), threads@.len())),
    {
        let ghost all = threads@;
        let mut rest = threads;
        let mut map: HashMap<u32, Thread> = HashMap::new();
        let mut i: usize = 0;
        while i < ids.len() && rest.len() > 0
            invariant
                i <= ids.len(),
                i <= all.len(),
                rest@ =~= all.skip(i as int),
                map@ == keyed(ids@, all, i as nat),
            decreases ids.len() - i,
        {
            let thread = rest.remove(0);
            map.insert(ids[i], thread);
            i += 1;
        }
        Board { threads: map, board }
    }

    /// Returns the thread with the number `k`, if the cache holds it.
    pub fn get(&self, k: u32) -> (found: Option<&Thread>)
        ensures
            match found {
                Some(thread) => self.threads@.contains_key(k) && *thread == self.threads@[k],
                None => !self.threads@.contains_key(k),
            },
    {
        self.threads.get(&k)
    }

    /// Puts `thread` under the number `id` and returns the thread that was
    /// there before, if there was one.
    pub fn insert(&mut self, id: u32, thread: Thread) -> (replaced: Option<Thread>)
        ensures
            final(self).threads@ == old(self).threads@.insert(id, thread),
            final(self).board == old(self).board,
            match replaced {
                Some(before) => old(self).threads@.contains_key(id) && before == old(
                    self,
                ).threads@[id],
                None => !old(self).threads@.contains_key(id),
            },
    {
        self.threads.insert(id, thread)
    }

    /// Returns the name of the board.
    pub fn board(&self) -> (board: &str)
        ensures
            board@ == self.board@,
    {
        self.board.as_str()
    }

    /// Builds the cache anew from the numbers the thread list now gives and
    /// the refreshed threads, pair by pair. The board stays the same.
    pub fn update(self, ids: Vec<u32>, threads: Vec<Thread>) -> (made: Board)
        ensures
            made.board == self.board,
            made.threads@ == keyed(ids@, threads@, shorter(ids@.len(), threads@.len())),
    {
        Self::pair(self.board, ids, threads)
    }
}

} // verus!
