use vstd::prelude::*;
use crate::store::{StoreError, WeatherController};

verus! {

/// The commands that arrive from the display, whose indices are signed.
pub struct WeatherDisplayController {}

impl WeatherDisplayController {
    pub fn new() -> (r: WeatherDisplayController) {
        WeatherDisplayController {}
    }

    /// Swaps two cities chosen by the display; a negative index is out of
    /// range like any other.
    pub fn reorder_cities<P>(
        controller: &mut WeatherController<P>,
        index: i32,
        new_index: i32,
    ) -> (r: Result<(), StoreError>)
        requires
            old(controller).wf(),
        ensures
            final(controller).wf(),
            final(controller).busy_spec() == old(controller).busy_spec(),
            0 <= index < old(controller)@.len() && 0 <= new_index < old(controller)@.len() ==> r is Ok
                && final(controller)@ == old(controller)@.update(
                index as int,
                old(controller)@[new_index as int],
            ).update(new_index as int, old(controller)@[index as int]),
            !(0 <= index < old(controller)@.len() && 0 <= new_index < old(controller)@.len()) ==> r
                == Err::<(), StoreError>(StoreError::IndexOutOfRange) && final(controller)@ == old(
                controller,
            )@,
    {
        if index < 0 || new_index < 0 {
            return Err(StoreError::IndexOutOfRange);
        }
        controller.reorder_cities(index as usize, new_index as usize)
    }

    /// Removes a city chosen by the display; a negative index is out of
    /// range like any other.
    pub fn remove_city<P>(controller: &mut WeatherController<P>, index: i32) -> (r: Result<(), StoreError>)
        requires
            old(controller).wf(),
        ensures
            final(controller).wf(),
            final(controller).busy_spec() == old(controller).busy_spec(),
            0 <= index < old(controller)@.len() ==> r is Ok && final(controller)@ == old(
                controller,
            )@.remove(index as int),
            !(0 <= index < old(controller)@.len()) ==> r == Err::<(), StoreError>(
                StoreError::IndexOutOfRange,
            ) && final(controller)@ == old(controller)@,
    {
        if index < 0 {
            return Err(StoreError::IndexOutOfRange);
        }
        controller.remove_city(index as usize)
    }
}

} // verus!
