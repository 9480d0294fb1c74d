use crate::hap_type::HapType;
use vstd::prelude::*;

verus! {

/// The history of a read hook: the reads that it has answered, oldest first.
/// For each, the type that it was asked for and the value that it supplied.
pub type Reads<T> = Seq<(HapType, <T as View>::V)>;

/// The history of an update hook: the writes that it has been told of,
/// oldest first. For each, the type, the value that was held and the value
/// that was written.
pub type Updates<T> = Seq<(HapType, <T as View>::V, <T as View>::V)>;

/// A source of fresh values: what the accessory's own logic supplies when a
/// characteristic is read.
///
/// Whatever a hook returns becomes the characteristic's value. A hook has no
/// way to report a failure: what it cannot do, it must make part of the
/// value.
pub trait Readable<T: View> {
    /// The reads that the hook has answered.
    ///
    /// The history is ghost. It is never run, so an implementation outside
    /// verified code gives it a body that is never reached.
    spec fn supplied(&self) -> Reads<T>;

    /// Called on each read of the characteristic, before the value is handed
    /// out. Each call adds itself to the history, and nothing else does.
    fn on_read(&mut self, hap_type: HapType) -> (value: T)
        ensures
            final(self).supplied() == old(self).supplied().push((hap_type, value@)),
    ;
}

/// A witness of writes: what the accessory's own logic does when a
/// characteristic is given a value.
///
/// A hook has no way to refuse a write or to report a failure: the value is
/// stored whatever the hook did.
pub trait Updatable<T: View> {
    /// The writes that the hook has been told of.
    ///
    /// The history is ghost. It is never run, so an implementation outside
    /// verified code gives it a body that is never reached.
    spec fn told(&self) -> Updates<T>;

    /// Called on each write of the characteristic, while it still holds
    /// `old_val`. Each call adds itself to the history, and nothing else
    /// does.
    fn on_update(&mut self, hap_type: HapType, old_val: &T, new_val: &T)
        ensures
            final(self).told() == old(self).told().push((hap_type, old_val@, new_val@)),
    ;
}

/// A boxed hook is the hook in the box.
impl<T: View> Readable<T> for Box<dyn Readable<T>> {
    open spec fn supplied(&self) -> Reads<T> {
        (**self).supplied()
    }

    fn on_read(&mut self, hap_type: HapType) -> (value: T) {
        (**self).on_read(hap_type)
    }
}

/// A boxed hook is the hook in the box.
impl<T: View> Updatable<T> for Box<dyn Updatable<T>> {
    open spec fn told(&self) -> Updates<T> {
        (**self).told()
    }

    fn on_update(&mut self, hap_type: HapType, old_val: &T, new_val: &T) {
        (**self).on_update(hap_type, old_val, new_val)
    }
}

} // verus!
