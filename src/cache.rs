use vstd::prelude::*;

verus! {

/// A value computed from some arguments, kept with the hash of those
/// arguments and computed again only when the hash changes.
#[derive(Clone, Copy, Debug)]
pub struct Cached<T> {
    hash: u64,
    val: Option<T>,
}

impl<T> Cached<T> {
    /// The hash the value was computed for.
    pub closed spec fn spec_hash(&self) -> u64 {
        self.hash
    }

    /// The value, if one was computed.
    pub closed spec fn spec_val(&self) -> Option<T> {
        self.val
    }

    /// A cache holding nothing yet.
    pub fn new() -> (r: Self)
        ensures
            r.spec_val() is None,
            r.spec_hash() == 0,
    {
        Cached { hash: 0, val: None }
    }

    /// Makes the cache hold a value for arguments of hash `hash`: the value
    /// it holds if that was computed for `hash`, else what `f` returns.
    pub fn update_hashed<F: FnOnce() -> T>(&mut self, hash: u64, f: F)
        requires
            f.requires(()),
        ensures
            final(self).spec_hash() == hash,
            final(self).spec_val() is Some,
            old(self).spec_val() is Some && old(self).spec_hash() == hash ==> final(self).spec_val()
                == old(self).spec_val(),
            !(old(self).spec_val() is Some && old(self).spec_hash() == hash) ==> f.ensures(
                (),
                final(self).spec_val()->0,
            ),
    {
        let fresh = match &self.val {
            Some(_) => self.hash != hash,
            None => true,
        };
        if fresh {
            self.val = Some(f());
            self.hash = hash;
        }
    }

    /// The value, if one was computed.
    pub fn borrow(&self) -> (r: Option<&T>)
        ensures
            r is Some <==> self.spec_val() is Some,
            r matches Some(v) ==> *v == self.spec_val()->0,
    {
        match &self.val {
            Some(v) => Some(v),
            None => None,
        }
    }
}

} // verus!
