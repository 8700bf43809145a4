//! A small element container written in the shape the engine's declaration
//! units are derived for: every accessor makes sense both on the container
//! and on its archived counterpart, so one method block can serve the two.

use vstd::prelude::*;

verus! {

/// A container of elements.
pub struct Foo<T> {
    pub elements: Vec<T>,
}

/// The mathematical sum of the elements.
pub open spec fn sum_of(s: Seq<u32>) -> int
    decreases s.len(),
{
    if s.len() == 0 {
        0
    } else {
        sum_of(s.drop_last()) + s.last()
    }
}

impl<T> Foo<T> {
    /// All elements, as a slice.
    pub fn get_slice(&self) -> (r: &[T])
        ensures
            r@ == self.elements@,
    {
        self.elements.as_slice()
    }

    /// The first element, when there is one.
    pub fn get_first(&self) -> (r: Option<&T>)
        ensures
            self.elements@.len() == 0 ==> r is None,
            self.elements@.len() > 0 ==> (r matches Some(e) && *e == self.elements@[0]),
    {
        self.elements.as_slice().first()
    }
}

impl Foo<u32> {
    /// Whether the element at `index` equals `value`.
    pub fn element_eq(&self, index: usize, value: &u32) -> (r: bool)
        requires
            index < self.elements@.len(),
        ensures
            r == (self.elements@[index as int] == *value),
    {
        self.elements[index] == *value
    }

    /// A copy of the element at `index`.
    pub fn clone_element(&self, index: usize) -> (r: u32)
        requires
            index < self.elements@.len(),
        ensures
            r == self.elements@[index as int],
    {
        self.elements[index]
    }

    /// The sum of all elements.
    pub fn sum(&self) -> (r: u64)
        requires
            self.elements@.len() <= u32::MAX,
        ensures
            r == sum_of(self.elements@),
    {
        let mut acc: u64 = 0;
        let mut i: usize = 0;
        while i < self.elements.len()
            invariant
                i <= self.elements@.len(),
                self.elements@.len() <= u32::MAX,
                acc == sum_of(self.elements@.subrange(0, i as int)),
                acc <= (i as int) * 0xffff_ffff,
            decreases self.elements@.len() - i,
        {
            let ghost prefix = self.elements@.subrange(0, i as int);
            acc = acc + self.elements[i] as u64;
            i += 1;
            proof {
                let cur = self.elements@.subrange(0, i as int);
                assert(cur.drop_last() =~= prefix);
                assert(cur.last() == self.elements@[i - 1]);
            }
        }
        proof {
            assert(self.elements@.subrange(0, self.elements@.len() as int) =~= self.elements@);
        }
        acc
    }
}

/// Exercises the accessors exactly as a caller holding the archived
/// counterpart of the container would.
pub fn call_archived(foo: &Foo<u32>) {
    let _ = foo.get_slice();
    let _ = foo.get_first();
}

} // verus!
