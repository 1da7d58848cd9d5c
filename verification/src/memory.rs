use vstd::prelude::*;

use crate::semantics::{empty_mem, mem_read};
use fxhash::FxHashMap;

verus! {

#[verifier::external_type_specification]
#[verifier::external_body]
pub struct ExFxHasher(fxhash::FxHasher);

#[verifier::external_type_specification]
#[verifier::external_body]
#[verifier::reject_recursive_types(H)]
pub struct ExBuildHasherDefault<H>(std::hash::BuildHasherDefault<H>);

/// Relies on `HashMap::default` (here with fxhash's `FxBuildHasher`): a
/// freshly built map holds no entry.
#[verifier::external_body]
fn cells_new() -> (r: FxHashMap<i64, i64>)
    ensures
        r@ == empty_mem(),
{
    FxHashMap::default()
}

/// Relies on `HashMap::get`: the value stored under the key, if any.
#[verifier::external_body]
fn cells_get(m: &FxHashMap<i64, i64>, at: i64) -> (r: Option<i64>)
    ensures
        r == (if m@.contains_key(at) {
            Some(m@[at])
        } else {
            None::<i64>
        }),
{
    match m.get(&at) {
        Some(v) => Some(*v),
        None => None,
    }
}

/// Relies on `HashMap::insert`: afterwards the map holds `v` under `at` and
/// is otherwise unchanged.
#[verifier::external_body]
fn cells_insert(m: &mut FxHashMap<i64, i64>, at: i64, v: i64)
    ensures
        final(m)@ == old(m)@.insert(at, v),
{
    m.insert(at, v);
}

/// The sparse integer-keyed address space. Reading never fails (an address
/// never written holds zero) and writing never fails (the address space is
/// unbounded); the view is the map of the addresses written so far.
pub struct Memory {
    cells: FxHashMap<i64, i64>,
}

impl View for Memory {
    type V = Map<i64, i64>;

    closed spec fn view(&self) -> Map<i64, i64> {
        self.cells@
    }
}

impl Memory {
    pub fn new() -> (m: Memory)
        ensures
            m@ == empty_mem(),
    {
        Memory { cells: cells_new() }
    }

    pub fn read(&self, at: i64) -> (v: i64)
        ensures
            v == mem_read(self@, at),
    {
        match cells_get(&self.cells, at) {
            Some(v) => v,
            None => 0,
        }
    }

    pub fn write(&mut self, at: i64, v: i64)
        ensures
            final(self)@ == old(self)@.insert(at, v),
    {
        cells_insert(&mut self.cells, at, v);
    }
}

} // verus!
