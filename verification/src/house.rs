//! A house: a named set of rooms, no two of one name.

use crate::device_info::{report_text, DeviceInfo, DeviceInfoReportComposer};
use crate::error::{HouseError, HouseErrorView};
use crate::keyed::{keyed, lemma_keyed_push, lemma_keyed_remove};
use crate::manager::Manager;
use crate::room::{device_names, Room};
use crate::text::same_text;
use core::slice::Iter;
use vstd::prelude::*;
use vstd::std_specs::iter::IteratorSpec;

verus! {

/// A house with its rooms.
#[derive(Debug, Clone)]
pub struct House<T> {
    name: String,
    rooms: Vec<Room<T>>,
}

/// The names of the listed rooms, in the order of the listing.
pub open spec fn room_names<T>(rooms: Seq<Room<T>>) -> Seq<Seq<char>> {
    rooms.map_values(|room: Room<T>| room.label())
}

impl<T: DeviceInfo> View for House<T> {
    type V = Map<Seq<char>, Room<T>>;

    open spec fn view(&self) -> Map<Seq<char>, Room<T>> {
        keyed(room_names(self.rooms()), self.rooms())
    }
}

impl<T: DeviceInfo> House<T> {
    /// The rooms in the order in which the house hands them out.
    pub closed spec fn rooms(&self) -> Seq<Room<T>> {
        self.rooms@
    }

    /// The house's name.
    pub closed spec fn label(&self) -> Seq<char> {
        self.name@
    }

    /// An empty house of the given name.
    pub fn new(name: &str) -> (r: Self)
        ensures
            r.label() == name@,
            r.rooms() == Seq::<Room<T>>::empty(),
            r.wf(),
    {
        Self { name: name.to_owned(), rooms: Vec::new() }
    }

    /// Goes through the rooms of the house, each one once.
    pub fn iter(&self) -> (r: Iter<'_, Room<T>>)
        ensures
            r.remaining() == self.rooms().as_ref(),
            r.decrease() is Some,
            r.initial_value_relation(&r),
    {
        self.rooms.iter()
    }

    /// The index of the room called `name`, if the house has one.
    fn position(&self, name: &str) -> (r: Option<usize>)
        ensures
            match r {
                Some(i) => i < self.rooms().len() && room_names(self.rooms())[i as int] == name@,
                None => !room_names(self.rooms()).contains(name@),
            },
    {
        let mut i: usize = 0;
        while i < self.rooms.len()
            invariant
                i <= self.rooms().len(),
                forall|j: int| 0 <= j < i ==> room_names(self.rooms())[j] != name@,
            decreases self.rooms().len() - i,
        {
            if same_text(self.rooms[i].name(), name) {
                return Some(i);
            }
            i += 1;
        }
        None
    }

    /// Adds `device` to the room called `room_name`. Where the house has no
    /// such room, or the room has a device of that name already, nothing
    /// changes and the failure says which.
    pub fn add_device_to_room(&mut self, device: T, room_name: &str) -> (r: Result<(), HouseError>)
        requires
            old(self).wf(),
        ensures
            final(self).wf(),
            final(self).label() == old(self).label(),
            room_names(final(self).rooms()) == room_names(old(self).rooms()),
            match r {
                Ok(()) => {
                    &&& old(self)@.contains_key(room_name@)
                    &&& final(self)@ == old(self)@.insert(room_name@, final(self)@[room_name@])
                    &&& !old(self)@[room_name@]@.contains_key(device.spec_name())
                    &&& final(self)@[room_name@]@ == old(self)@[room_name@]@.insert(
                        device.spec_name(),
                        device,
                    )
                    &&& final(self)@[room_name@].devices() == old(self)@[room_name@].devices().push(
                        device,
                    )
                },
                Err(e) => {
                    &&& final(self).rooms() == old(self).rooms()
                    &&& if old(self)@.contains_key(room_name@) {
                        &&& old(self)@[room_name@]@.contains_key(device.spec_name())
                        &&& e@ == HouseErrorView::DeviceAlreadyExistsError(device.spec_name())
                    } else {
                        e@ == HouseErrorView::RoomNotFoundError(room_name@)
                    }
                },
            },
    {
        match self.position(room_name) {
            None => Err(HouseError::RoomNotFoundError(room_name.to_owned())),
            Some(i) => {
                let r = self.rooms[i].add(device);
                proof {
                    assert(room_names(self.rooms()) =~= room_names(old(self).rooms()));
                }
                r
            },
        }
    }

    /// Removes the device called `device_name` from the room called
    /// `room_name`. Where the house has no such room, or the room no such
    /// device, nothing changes and the failure says which.
    pub fn remove_device_for_room(&mut self, device_name: &str, room_name: &str) -> (r: Result<
        (),
        HouseError,
    >)
        requires
            old(self).wf(),
        ensures
            final(self).wf(),
            final(self).label() == old(self).label(),
            room_names(final(self).rooms()) == room_names(old(self).rooms()),
            match r {
                Ok(()) => {
                    &&& old(self)@.contains_key(room_name@)
                    &&& final(self)@ == old(self)@.insert(room_name@, final(self)@[room_name@])
                    &&& old(self)@[room_name@]@.contains_key(device_name@)
                    &&& final(self)@[room_name@]@ == old(self)@[room_name@]@.remove(device_name@)
                    &&& final(self)@[room_name@].devices() == old(self)@[room_name@].devices().remove(
                        device_names(old(self)@[room_name@].devices()).index_of(device_name@),
                    )
                },
                Err(e) => {
                    &&& final(self).rooms() == old(self).rooms()
                    &&& if old(self)@.contains_key(room_name@) {
                        &&& !old(self)@[room_name@]@.contains_key(device_name@)
                        &&& e@ == HouseErrorView::DeviceNotFoundError(device_name@)
                    } else {
                        e@ == HouseErrorView::RoomNotFoundError(room_name@)
                    }
                },
            },
    {
        match self.position(room_name) {
            None => Err(HouseError::RoomNotFoundError(room_name.to_owned())),
            Some(i) => {
                let r = self.rooms[i].remove(device_name);
                proof {
                    assert(room_names(self.rooms()) =~= room_names(old(self).rooms()));
                }
                r
            },
        }
    }

    /// Goes through the devices of the room called `room_name`, each one
    /// once; `None` where the house has no such room.
    pub fn iter_devices_for_room(&self, room_name: &str) -> (r: Option<Iter<'_, T>>)
        requires
            self.wf(),
        ensures
            match r {
                Some(devices) => {
                    &&& self@.contains_key(room_name@)
                    &&& devices.remaining() == self@[room_name@].devices().as_ref()
                    &&& devices.decrease() is Some
                    &&& devices.initial_value_relation(&devices)
                },
                None => !self@.contains_key(room_name@),
            },
    {
        match self.position(room_name) {
            None => None,
            Some(i) => {
                Some(self.rooms[i].iter())
            },
        }
    }

    /// Runs the query `info_provider` on the house and gives the line it
    /// composed, or, where it failed, the description of the failure.
    pub fn report<I: DeviceInfoReportComposer<T>>(&self, info_provider: I) -> (r: String)
        requires
            self.wf(),
        ensures
            r@ == report_text(info_provider.composed(self)),
    {
        match info_provider.compose(self) {
            Ok(text) => text,
            Err(e) => e.message(),
        }
    }
}

impl<T: DeviceInfo> Manager for House<T> {
    type Item = Room<T>;

    open spec fn wf(&self) -> bool {
        &&& room_names(self.rooms()).no_duplicates()
        &&& forall|i: int| 0 <= i < self.rooms().len() ==> (#[trigger] self.rooms()[i]).wf()
    }

    open spec fn spec_name(&self) -> Seq<char> {
        self.label()
    }

    open spec fn entries(&self) -> Map<Seq<char>, Room<T>> {
        self@
    }

    open spec fn item_name(item: Room<T>) -> Seq<char> {
        item.label()
    }

    open spec fn item_wf(item: Room<T>) -> bool {
        item.wf()
    }

    open spec fn taken(name: Seq<char>) -> HouseErrorView {
        HouseErrorView::RoomAlreadyExistsError(name)
    }

    open spec fn absent(name: Seq<char>) -> HouseErrorView {
        HouseErrorView::RoomNotFoundError(name)
    }

    fn name(&self) -> (r: &str) {
        self.name.as_str()
    }

    fn add(&mut self, room: Room<T>) -> (r: Result<(), HouseError>)
        ensures
            r is Ok ==> final(self).rooms() == old(self).rooms().push(room),
    {
        match self.position(room.name()) {
            Some(_) => Err(HouseError::RoomAlreadyExistsError(room.name().to_owned())),
            None => {
                proof {
                    lemma_keyed_push(room_names(self.rooms()), self.rooms(), room.label(), room);
                    assert(room_names(self.rooms().push(room)) =~= room_names(self.rooms()).push(
                        room.label(),
                    ));
                }
                self.rooms.push(room);
                Ok(())
            },
        }
    }

    fn remove(&mut self, room_name: &str) -> (r: Result<(), HouseError>)
        ensures
            r is Ok ==> final(self).rooms() == old(self).rooms().remove(
                room_names(old(self).rooms()).index_of(room_name@),
            ),
    {
        match self.position(room_name) {
            None => Err(HouseError::RoomNotFoundError(room_name.to_owned())),
            Some(i) => {
                proof {
                    lemma_keyed_remove(room_names(self.rooms()), self.rooms(), i as int);
                    assert(room_names(self.rooms().remove(i as int)) =~= room_names(
                        self.rooms(),
                    ).remove(i as int));
                }
                self.rooms.remove(i);
                Ok(())
            },
        }
    }
}

} // verus!
