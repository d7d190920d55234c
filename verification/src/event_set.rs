use vstd::prelude::*;

verus! {

/// Something that events of type `T` can be sent through.
pub trait SendEvent<T> {
    fn dispatch(&mut self, event: T);
}

} // verus!
