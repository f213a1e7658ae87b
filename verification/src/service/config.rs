use std::collections::hash_map::DefaultHasher;
use std::hash::{Hash, Hasher};

use vstd::prelude::*;

verus! {

/// `Hash::hash` into a hasher: what a value writes into the hasher is left to the value's
/// `Hash` implementation and is not stated here.
#[verifier::external_body]
fn feed_hasher<T: Hash>(value: &T, hasher: &mut DefaultHasher) {
    value.hash(hasher)
}

/// The hash of a value under std's default hasher (fresh, with its fixed keys), with which the
/// configuration service tells whether a configuration changed. Nothing is stated of the value:
/// it is whatever the value's `Hash` implementation writes, hashed by std.
pub fn calculate_hash<T: Hash>(t: &T) -> (r: u64) {
    let mut s = DefaultHasher::new();
    feed_hasher(t, &mut s);
    s.finish()
}

/// The configuration service: the hashes of the configurations it last stored.
#[derive(Clone, Copy, Debug, PartialEq, Eq, Structural)]
pub struct ConfigService {
    pub app_config_last_hash: u64,
}

impl ConfigService {
    pub fn new() -> (r: ConfigService)
        ensures
            r.app_config_last_hash == 0,
    {
        ConfigService { app_config_last_hash: 0 }
    }

    /// Decides, on a change of the state whose configuration now hashes to `hash`, whether the
    /// configuration is to be stored: it is where the hash differs from the last one stored,
    /// which then becomes the last.
    pub fn handle_state_change(&mut self, hash: u64) -> (store: bool)
        ensures
            store == (hash != old(self).app_config_last_hash),
            final(self).app_config_last_hash == hash,
    {
        let store = hash != self.app_config_last_hash;
        if store {
            self.app_config_last_hash = hash;
        }
        store
    }
}

} // verus!
