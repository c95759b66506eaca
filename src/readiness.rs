//! The readiness store: per-socket flags that the poller sets from OS
//! readiness notifications and the tick thread reads, through relaxed
//! atomic loads and stores.
use std::sync::atomic::{AtomicBool, Ordering};

use vstd::prelude::*;

verus! {

/// Read and write readiness of one socket token.
#[derive(Debug)]
pub struct TokenStatus {
    readable: AtomicBool,
    writable: AtomicBool,
}

impl TokenStatus {
    /// Both flags start cleared: nothing is known until the poller reports.
    pub fn new() -> Self {
        TokenStatus { readable: AtomicBool::new(false), writable: AtomicBool::new(false) }
    }

    #[inline]
    pub fn is_readable(&self) -> bool {
        self.readable.load(Ordering::Relaxed)
    }

    #[inline]
    pub fn set_readable(&self, val: bool) {
        self.readable.store(val, Ordering::Relaxed);
    }

    #[inline]
    pub fn is_writable(&self) -> bool {
        self.writable.load(Ordering::Relaxed)
    }

    #[inline]
    pub fn set_writable(&self, val: bool) {
        self.writable.store(val, Ordering::Relaxed);
    }
}

/// The flags of every registered socket, indexed by token. A token is handed
/// out once, in order, and never reused.
#[derive(Debug)]
pub struct TokenStatusMap {
    entries: Vec<TokenStatus>,
}

impl TokenStatusMap {
    /// How many tokens have been handed out.
    pub closed spec fn len(&self) -> nat {
        self.entries@.len()
    }

    pub fn new() -> (r: TokenStatusMap)
        ensures
            r.len() == 0,
    {
        TokenStatusMap { entries: Vec::new() }
    }

    /// Hands out a fresh token, with cleared flags.
    pub fn register(&mut self) -> (token: usize)
        ensures
            token == old(self).len(),
            final(self).len() == old(self).len() + 1,
    {
        let token = self.entries.len();
        self.entries.push(TokenStatus::new());
        token
    }

    pub fn get(&self, token: usize) -> (r: Option<&TokenStatus>)
        ensures
            r is Some <==> token < self.len(),
    {
        if token < self.entries.len() {
            Some(&self.entries[token])
        } else {
            None
        }
    }

    /// Records one readiness notification of the poller. Tokens that were
    /// never handed out are ignored; the result says whether the token was
    /// known.
    pub fn apply(&self, token: usize, readable: bool, writable: bool) -> (known: bool)
        ensures
            known <==> token < self.len(),
    {
        match self.get(token) {
            Some(status) => {
                status.set_readable(readable);
                status.set_writable(writable);
                true
            },
            None => false,
        }
    }
}

} // verus!
