//! The ordered, fixed collection of configured outlets.
//!
//! Built once at startup from position-aligned configuration lists; a
//! length mismatch among them is a fatal configuration error.  After
//! that the registry is read-only: lookup is by zero-based position and
//! an out-of-range position reads as "not found".

use vstd::prelude::*;

use crate::errors::Error;
use crate::outlet::Outlet;

verus! {

/// The registry: outlets in configuration order.  Its view is the
/// sequence of outlets.
pub struct Registry {
    outlets: Vec<Outlet>,
}

impl View for Registry {
    type V = Seq<Outlet>;

    closed spec fn view(&self) -> Seq<Outlet> {
        self.outlets@
    }
}

impl Registry {
    /// Builds the registry from position-aligned configuration lists.
    /// All five lists must have the same length; a mismatch is the fatal
    /// startup error, and nothing is built.
    pub fn new(
        names: Vec<String>,
        dev_ids: Vec<String>,
        keys: Vec<String>,
        addresses: Vec<String>,
        protocol_versions: Vec<String>,
    ) -> (r: Result<Registry, Error>)
        ensures
            ({
                let n = dev_ids@.len();
                if names@.len() == n && keys@.len() == n && addresses@.len() == n
                    && protocol_versions@.len() == n {
                    &&& r matches Ok(reg)
                    &&& reg@.len() == n
                    &&& forall|i: int|
                        0 <= i < n ==> #[trigger] reg@[i] == (Outlet {
                            name: names@[i],
                            dev_id: dev_ids@[i],
                            key: keys@[i],
                            address: addresses@[i],
                            protocol_version: protocol_versions@[i],
                        })
                } else {
                    r matches Err(e) && e == Error::ConfigurationMismatch
                }
            }),
    {
        let n = dev_ids.len();
        if !(names.len() == n && keys.len() == n && addresses.len() == n
            && protocol_versions.len() == n) {
            return Err(Error::ConfigurationMismatch);
        }
        let mut outlets: Vec<Outlet> = Vec::new();
        for i in 0..n
            invariant
                n == dev_ids@.len(),
                names@.len() == n,
                keys@.len() == n,
                addresses@.len() == n,
                protocol_versions@.len() == n,
                outlets@.len() == i,
                forall|j: int|
                    0 <= j < i ==> #[trigger] outlets@[j] == (Outlet {
                        name: names@[j],
                        dev_id: dev_ids@[j],
                        key: keys@[j],
                        address: addresses@[j],
                        protocol_version: protocol_versions@[j],
                    }),
        {
            outlets.push(
                Outlet {
                    name: names[i].clone(),
                    dev_id: dev_ids[i].clone(),
                    key: keys[i].clone(),
                    address: addresses[i].clone(),
                    protocol_version: protocol_versions[i].clone(),
                },
            );
        }
        Ok(Registry { outlets })
    }

    /// How many outlets are configured.
    pub fn len(&self) -> (n: usize)
        ensures
            n == self@.len(),
    {
        self.outlets.len()
    }

    /// The outlet at a zero-based position; out-of-range positions read
    /// as "not found", never as a fault.
    pub fn lookup(&self, id: usize) -> (r: Option<&Outlet>)
        ensures
            if id < self@.len() {
                r matches Some(o) && *o == self@[id as int]
            } else {
                r is None
            },
    {
        if id < self.outlets.len() {
            Some(&self.outlets[id])
        } else {
            None
        }
    }
}

} // verus!
