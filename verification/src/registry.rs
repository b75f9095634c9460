//! The identifiers by which the library knows the objects of a context.
//!
//! A context hands out objects that mean nothing outside of it. Whoever makes
//! the calls keeps them in a registry and gives the library the identifier of
//! each. An identifier is handed out once: it stands for the same object as
//! long as the registry lives, also after the context has deleted the object.
use vstd::prelude::*;

verus! {

/// The objects that a context has handed out, each under its identifier. The
/// identifiers count up from 1; 0 stands for null.
pub struct Registry<T> {
    slots: Vec<T>,
}

impl<T> View for Registry<T> {
    type V = Seq<T>;

    /// The objects in the order in which they were taken in.
    closed spec fn view(&self) -> Seq<T> {
        self.slots@
    }
}

impl<T> Registry<T> {
    /// Whether `id` stands for an object of the registry.
    pub open spec fn knows(&self, id: u32) -> bool {
        1 <= id <= self@.len()
    }

    /// The object that `id` stands for.
    pub open spec fn object(&self, id: u32) -> T
        recommends
            self.knows(id),
    {
        self@[id - 1]
    }

    /// A registry without objects.
    pub fn new() -> (registry: Self)
        ensures
            registry@ == Seq::<T>::empty(),
    {
        Registry { slots: Vec::new() }
    }

    /// Gives the number of objects that were taken in.
    pub fn len(&self) -> (n: usize)
        ensures
            n == self@.len(),
    {
        self.slots.len()
    }

    /// Takes an object in and gives the identifier that stands for it from now
    /// on: one that stood for nothing before. What the other identifiers stand
    /// for stays. A registry that has used up the identifiers takes nothing
    /// in and gives 0.
    pub fn adopt(&mut self, object: T) -> (id: u32)
        ensures
            old(self)@.len() < u32::MAX ==> final(self)@ == old(self)@.push(object) && id
                == old(self)@.len() + 1,
            old(self)@.len() >= u32::MAX ==> final(self)@ == old(self)@ && id == 0,
            id != 0 ==> !old(self).knows(id) && final(self).knows(id) && final(self).object(id)
                == object,
            forall|other: u32|
                old(self).knows(other) ==> final(self).knows(other) && final(self).object(other)
                    == old(self).object(other),
    {
        let n: usize = self.slots.len();
        if n < 0xFFFF_FFFF {
            self.slots.push(object);
            (n + 1) as u32
        } else {
            0
        }
    }

    /// Gives the object that `id` stands for; none for 0 and for an identifier
    /// that was not handed out.
    pub fn get(&self, id: u32) -> (object: Option<&T>)
        ensures
            object is Some <==> self.knows(id),
            object is Some ==> *object->0 == self.object(id),
    {
        if id == 0 {
            return None;
        }
        let index: usize = (id - 1) as usize;
        if index < self.slots.len() {
            Some(&self.slots[index])
        } else {
            None
        }
    }
}

/// Two objects taken in one after the other get different identifiers, and
/// each identifier stands for its own object.
pub proof fn lemma_identifiers_are_unique<T>(before: Seq<T>, first: T, second: T)
    requires
        before.len() + 2 <= u32::MAX,
    ensures
        ({
            let one = before.push(first);
            let two = one.push(second);
            let first_id = one.len();
            let second_id = two.len();
            &&& first_id != second_id
            &&& first_id > before.len()
            &&& two[first_id - 1] == first
            &&& two[second_id - 1] == second
        }),
{
}

} // verus!
