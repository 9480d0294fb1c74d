use crate::json::{Json, JsonView};
use vstd::prelude::*;

verus! {

/// What a characteristic reports to the controllers that subscribed to it.
#[derive(Debug, PartialEq)]
pub enum Event {
    /// The characteristic `iid` of the accessory `aid` was given the value
    /// `value`.
    CharacteristicValueChanged { aid: u64, iid: u64, value: Json },
}

/// What an `Event` holds.
pub enum EventView {
    CharacteristicValueChanged { aid: u64, iid: u64, value: JsonView },
}

impl View for Event {
    type V = EventView;

    open spec fn view(&self) -> EventView {
        match self {
            Event::CharacteristicValueChanged { aid, iid, value } => {
                EventView::CharacteristicValueChanged { aid: *aid, iid: *iid, value: value@ }
            },
        }
    }
}

impl Clone for Event {
    /// A copy that holds what the event holds.
    fn clone(&self) -> (copy: Event)
        ensures
            copy@ == self@,
    {
        match self {
            Event::CharacteristicValueChanged { aid, iid, value } => {
                Event::CharacteristicValueChanged { aid: *aid, iid: *iid, value: value.clone() }
            },
        }
    }
}

} // verus!
