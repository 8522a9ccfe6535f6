//! A room: a named set of devices, no two of one name.

use crate::device_info::DeviceInfo;
use crate::error::{HouseError, HouseErrorView};
use crate::keyed::{keyed, lemma_keyed_push, lemma_keyed_remove};
use crate::manager::Manager;
use crate::text::same_text;
use core::slice::Iter;
use vstd::prelude::*;
use vstd::std_specs::iter::IteratorSpec;

verus! {

/// A room with its devices.
#[derive(Debug, Clone)]
pub struct Room<T> {
    name: String,
    devices: Vec<T>,
}

/// The names of the listed devices, in the order of the listing.
pub open spec fn device_names<T: DeviceInfo>(devices: Seq<T>) -> Seq<Seq<char>> {
    devices.map_values(|d: T| d.spec_name())
}

impl<T> Room<T> {
    /// The devices in the order in which the room hands them out.
    pub closed spec fn devices(&self) -> Seq<T> {
        self.devices@
    }

    /// The room's name.
    pub closed spec fn label(&self) -> Seq<char> {
        self.name@
    }

    /// An empty room of the given name.
    pub fn new(name: &str) -> (r: Self)
        ensures
            r.label() == name@,
            r.devices() == Seq::<T>::empty(),
    {
        Self { name: name.to_owned(), devices: Vec::new() }
    }

    /// Goes through the devices of the room, each one once.
    pub fn iter(&self) -> (r: Iter<'_, T>)
        ensures
            r.remaining() == self.devices().as_ref(),
            r.decrease() is Some,
            r.initial_value_relation(&r),
    {
        self.devices.iter()
    }
}

impl<T: DeviceInfo> View for Room<T> {
    type V = Map<Seq<char>, T>;

    open spec fn view(&self) -> Map<Seq<char>, T> {
        keyed(device_names(self.devices()), self.devices())
    }
}

impl<T: DeviceInfo> Room<T> {
    /// The index of the device called `name`, if the room has one.
    fn position(&self, name: &str) -> (r: Option<usize>)
        ensures
            match r {
                Some(i) => i < self.devices().len() && device_names(self.devices())[i as int]
                    == name@,
                None => !device_names(self.devices()).contains(name@),
            },
    {
        let mut i: usize = 0;
        while i < self.devices.len()
            invariant
                i <= self.devices().len(),
                forall|j: int| 0 <= j < i ==> device_names(self.devices())[j] != name@,
            decreases self.devices().len() - i,
        {
            if same_text(self.devices[i].name(), name) {
                return Some(i);
            }
            i += 1;
        }
        None
    }
}

impl<T: DeviceInfo> Manager for Room<T> {
    type Item = T;

    open spec fn wf(&self) -> bool {
        device_names(self.devices()).no_duplicates()
    }

    open spec fn spec_name(&self) -> Seq<char> {
        self.label()
    }

    open spec fn entries(&self) -> Map<Seq<char>, T> {
        self@
    }

    open spec fn item_name(item: T) -> Seq<char> {
        item.spec_name()
    }

    open spec fn item_wf(item: T) -> bool {
        true
    }

    open spec fn taken(name: Seq<char>) -> HouseErrorView {
        HouseErrorView::DeviceAlreadyExistsError(name)
    }

    open spec fn absent(name: Seq<char>) -> HouseErrorView {
        HouseErrorView::DeviceNotFoundError(name)
    }

    fn name(&self) -> (r: &str) {
        self.name.as_str()
    }

    fn add(&mut self, device: T) -> (r: Result<(), HouseError>)
        ensures
            r is Ok ==> final(self).devices() == old(self).devices().push(device),
    {
        match self.position(device.name()) {
            Some(_) => Err(HouseError::DeviceAlreadyExistsError(device.name().to_owned())),
            None => {
                proof {
                    lemma_keyed_push(
                        device_names(self.devices()),
                        self.devices(),
                        device.spec_name(),
                        device,
                    );
                    assert(device_names(self.devices().push(device)) =~= device_names(
                        self.devices(),
                    ).push(device.spec_name()));
                }
                self.devices.push(device);
                Ok(())
            },
        }
    }

    fn remove(&mut self, device_name: &str) -> (r: Result<(), HouseError>)
        ensures
            r is Ok ==> final(self).devices() == old(self).devices().remove(
                device_names(old(self).devices()).index_of(device_name@),
            ),
    {
        match self.position(device_name) {
            None => Err(HouseError::DeviceNotFoundError(device_name.to_owned())),
            Some(i) => {
                proof {
                    lemma_keyed_remove(device_names(self.devices()), self.devices(), i as int);
                    assert(device_names(self.devices().remove(i as int)) =~= device_names(
                        self.devices(),
                    ).remove(i as int));
                }
                self.devices.remove(i);
                Ok(())
            },
        }
    }
}

} // verus!
