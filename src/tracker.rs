//! The shared active-key tracker: one key state behind a lock, written by the
//! device-input context and read by the render context. Every write and every
//! snapshot takes the lock, so no reader sees a half-applied change.
use vstd::prelude::*;
use vstd::rwlock::{RwLock, RwLockPredicate};
use std::sync::Arc;
use crate::keys::{KeyError, KEY_COUNT};
use crate::key_state::{KeyChange, KeyState, MessageError, decode};

verus! {

/// What the lock demands of the state it guards: nothing beyond its type,
/// which already fixes one flag per key.
pub struct AnyKeyState;

impl RwLockPredicate<KeyState> for AnyKeyState {
    open spec fn inv(self, v: KeyState) -> bool {
        true
    }
}

/// A cloneable handle to the shared key state. Clones share one state.
#[derive(Clone)]
pub struct KeyTracker {
    state: Arc<RwLock<KeyState, AnyKeyState>>,
}

impl KeyTracker {
    /// A tracker in which no key is held.
    pub fn new() -> (r: KeyTracker) {
        let lock = RwLock::new(KeyState::new(), Ghost(AnyKeyState));
        KeyTracker { state: Arc::new(lock) }
    }

    /// Marks key `index` held or released under the lock; an index outside
    /// `[0, 88)` is refused and nothing is written.
    pub fn set(&self, index: usize, held: bool) -> (r: Result<(), KeyError>)
        ensures
            r is Ok <==> index < KEY_COUNT,
            r matches Err(e) ==> e == (KeyError::IndexOutOfRange { index }),
    {
        if index >= KEY_COUNT {
            return Err(KeyError::IndexOutOfRange { index });
        }
        let (mut current, handle) = self.state.acquire_write();
        let r = current.set(index, held);
        handle.release_write(current);
        r
    }

    /// Applies a raw device message under the lock.
    pub fn apply_message(&self, msg: &[u8]) -> (r: Result<KeyChange, MessageError>)
        ensures
            r == decode(msg@),
    {
        let (mut current, handle) = self.state.acquire_write();
        let r = current.apply_message(msg);
        handle.release_write(current);
        r
    }

    /// A consistent copy of every key's flag, taken under the lock.
    pub fn snapshot(&self) -> (r: [bool; 88]) {
        let read = self.state.acquire_read();
        let r = read.borrow().snapshot();
        read.release_read();
        r
    }
}

} // verus!
