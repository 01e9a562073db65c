//! The process-wide snapshot of discovered bus adapters.

use std::rc::Rc;

use vstd::prelude::*;

use crate::bus::{BusAdapter, BusAdapterView};

verus! {

/// An immutable, reference-counted snapshot of the i2c bus adapters found on
/// the system.  Every chip holds a cheap shared handle to one snapshot and
/// uses it to name its bus; independent snapshots may coexist.
pub struct Context {
    adapters: Rc<Vec<BusAdapter>>,
}

impl View for Context {
    type V = Seq<BusAdapterView>;

    closed spec fn view(&self) -> Seq<BusAdapterView> {
        self.adapters@.map_values(|a: BusAdapter| a@)
    }
}

/// Relies on std's `Rc::clone`: the clone is a handle to the same
/// allocation.
#[verifier::external_body]
fn rc_clone_adapters(rc: &Rc<Vec<BusAdapter>>) -> (r: Rc<Vec<BusAdapter>>)
    ensures
        r == *rc,
{
    Rc::clone(rc)
}

impl Clone for Context {
    fn clone(&self) -> (r: Self)
        ensures
            r == *self,
    {
        Context { adapters: rc_clone_adapters(&self.adapters) }
    }
}

impl Context {
    /// Builds a snapshot from an adapter list, normally the result of a scan
    /// of the system's i2c adapter directories.
    pub fn new(adapters: Vec<BusAdapter>) -> (r: Context)
        ensures
            r@ == adapters@.map_values(|a: BusAdapter| a@),
    {
        Context { adapters: Rc::new(adapters) }
    }

    /// The adapters of the snapshot.
    pub fn adapters(&self) -> (r: &Vec<BusAdapter>)
        ensures
            r@.map_values(|a: BusAdapter| a@) == self@,
    {
        &*self.adapters
    }
}

} // verus!
