//! The two-key handshake over the keyed mutex of a shared texture.
//!
//! A keyed mutex is acquired with a key and released with a key; an
//! acquisition succeeds only while the mutex lies released under the very key
//! that is asked for. The capture side acquires with [`PRODUCER_KEY`] and
//! releases with [`CONSUMER_KEY`]; the render side does the reverse. Neither
//! side ever waits: an acquisition that does not succeed at once is given up.

use vstd::prelude::*;

verus! {

/// Key under which the capture side acquires, and under which a fresh
/// texture's mutex starts out.
pub const PRODUCER_KEY: u64 = 0;

/// Key under which the render side acquires.
pub const CONSUMER_KEY: u64 = 1;

/// Timeout of every acquisition, in milliseconds: none.
pub const ACQUIRE_TIMEOUT_MS: u32 = 0;

/// State of one keyed mutex.
pub enum KeyedMutex {
    /// Nobody holds it; it was last released under `key`.
    Released { key: u64 },
    /// Somebody holds it.
    Held,
}

impl KeyedMutex {
    /// The mutex of a texture that was just created.
    pub open spec fn fresh() -> KeyedMutex {
        KeyedMutex::Released { key: PRODUCER_KEY }
    }

    /// Whether an acquisition with `key` succeeds.
    pub open spec fn grants(self, key: u64) -> bool {
        self == (KeyedMutex::Released { key })
    }

    /// The mutex after an attempt to acquire it with `key`.
    pub open spec fn acquire(self, key: u64) -> KeyedMutex {
        if self.grants(key) {
            KeyedMutex::Held
        } else {
            self
        }
    }

    /// The mutex after its holder released it under `key`.
    pub open spec fn release(self, key: u64) -> KeyedMutex {
        if self is Held {
            KeyedMutex::Released { key }
        } else {
            self
        }
    }
}

} // verus!
