//! What every device can be asked, its name and whether it is switched on,
//! and the query that reports on one device of a house.

use crate::error::{HouseError, HouseErrorView};
use crate::house::House;
use crate::keyed::lemma_keyed_at;
use crate::manager::Manager;
use crate::room::device_names;
use crate::text::{bool_text, bool_to_string, same_text};
use vstd::prelude::*;
use vstd::std_specs::iter::IteratorSpec;

verus! {

/// The queries that a device answers, whatever its kind.
pub trait DeviceInfo {
    /// The device's name as a sequence of characters.
    spec fn spec_name(&self) -> Seq<char>;

    /// Whether the device is switched on.
    spec fn spec_state(&self) -> bool;

    /// The device's name.
    fn name(&self) -> (r: &str)
        ensures
            r@ == self.spec_name(),
    ;

    /// Whether the device is switched on.
    fn state(&self) -> (r: bool)
        ensures
            r == self.spec_state(),
    ;
}

/// A query that turns a house into a line of text, or fails.
pub trait DeviceInfoReportComposer<T: DeviceInfo> {
    /// What the query finds in `house`.
    spec fn composed(&self, house: &House<T>) -> Result<Seq<char>, HouseErrorView>;

    /// Runs the query on `house`.
    fn compose(&self, house: &House<T>) -> (r: Result<String, HouseError>)
        requires
            house.wf(),
        ensures
            outcome(r) == self.composed(house),
    ;
}

/// What came out of a query, as mathematical values.
pub open spec fn outcome(r: Result<String, HouseError>) -> Result<Seq<char>, HouseErrorView> {
    match r {
        Ok(text) => Ok(text@),
        Err(e) => Err(e@),
    }
}

/// The text that stands for the outcome of a query: the line that was
/// composed, or the description of the failure.
pub open spec fn report_text(composed: Result<Seq<char>, HouseErrorView>) -> Seq<char> {
    match composed {
        Ok(text) => text,
        Err(e) => e.message(),
    }
}

/// The line that reports a device that was found.
pub open spec fn found_text(device_name: Seq<char>, state: bool, room_name: Seq<char>) -> Seq<
    char,
> {
    "Device with name "@ + device_name + " and state "@ + bool_text(state)
        + " was found in room "@ + room_name
}

/// The query for one device in one room, both given by name.
pub struct DeviceInfoReport {
    pub device_name: String,
    pub room_name: String,
}

impl DeviceInfoReport {
    /// The query for the device called `device_name` in the room called
    /// `room_name`.
    pub fn new(device_name: &str, room_name: &str) -> (r: Self)
        ensures
            r.device_name@ == device_name@,
            r.room_name@ == room_name@,
    {
        Self { device_name: device_name.to_owned(), room_name: room_name.to_owned() }
    }
}

impl<T: DeviceInfo> DeviceInfoReportComposer<T> for DeviceInfoReport {
    /// The room is looked up first, then the device in it: a missing room is
    /// reported before a missing device.
    open spec fn composed(&self, house: &House<T>) -> Result<Seq<char>, HouseErrorView> {
        if !house@.contains_key(self.room_name@) {
            Err(HouseErrorView::RoomNotFoundError(self.room_name@))
        } else if !house@[self.room_name@]@.contains_key(self.device_name@) {
            Err(HouseErrorView::DeviceNotFoundError(self.device_name@))
        } else {
            Ok(
                found_text(
                    self.device_name@,
                    house@[self.room_name@]@[self.device_name@].spec_state(),
                    self.room_name@,
                ),
            )
        }
    }

    fn compose(&self, house: &House<T>) -> (r: Result<String, HouseError>) {
        let devices = match house.iter_devices_for_room(self.room_name.as_str()) {
            None => { return Err(HouseError::RoomNotFoundError(self.room_name.clone())); },
            Some(devices) => devices,
        };
        let ghost room = house@[self.room_name@];
        let ghost names = device_names(room.devices());
        for device in it: devices
            invariant
                house@.contains_key(self.room_name@),
                room == house@[self.room_name@],
                room.wf(),
                names == device_names(room.devices()),
                it.seq() == room.devices().as_ref(),
                forall|j: int| 0 <= j < it.index() ==> names[j] != self.device_name@,
        {
            if same_text(device.name(), self.device_name.as_str()) {
                proof {
                    lemma_keyed_at(names, room.devices(), it.index());
                }
                let mut text = "Device with name ".to_owned();
                text.append(device.name());
                text.append(" and state ");
                text.append(bool_to_string(device.state()).as_str());
                text.append(" was found in room ");
                text.append(self.room_name.as_str());
                return Ok(text);
            }
        }
        Err(HouseError::DeviceNotFoundError(self.device_name.clone()))
    }
}

/// A query for a room that the house does not have is reported as that
/// room missing, whatever device it asks for.
pub proof fn lemma_report_missing_room<T: DeviceInfo>(house: House<T>, query: DeviceInfoReport)
    requires
        !house@.contains_key(query.room_name@),
    ensures
        query.composed(&house) == Err::<Seq<char>, HouseErrorView>(
            HouseErrorView::RoomNotFoundError(query.room_name@),
        ),
        report_text(query.composed(&house)) == "Room `"@ + query.room_name@ + "` not found"@,
{
}

/// A query for a device that the room does not have is reported as that
/// device missing.
pub proof fn lemma_report_missing_device<T: DeviceInfo>(house: House<T>, query: DeviceInfoReport)
    requires
        house@.contains_key(query.room_name@),
        !house@[query.room_name@]@.contains_key(query.device_name@),
    ensures
        query.composed(&house) == Err::<Seq<char>, HouseErrorView>(
            HouseErrorView::DeviceNotFoundError(query.device_name@),
        ),
        report_text(query.composed(&house)) == "Device not found: "@ + query.device_name@,
{
}

/// A query for a device that the room has is answered with the line that
/// gives the device's name, its state and the room.
pub proof fn lemma_report_found<T: DeviceInfo>(house: House<T>, query: DeviceInfoReport)
    requires
        house@.contains_key(query.room_name@),
        house@[query.room_name@]@.contains_key(query.device_name@),
    ensures
        report_text(query.composed(&house)) == found_text(
            query.device_name@,
            house@[query.room_name@]@[query.device_name@].spec_state(),
            query.room_name@,
        ),
{
}

} // verus!
