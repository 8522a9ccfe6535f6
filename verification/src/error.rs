//! The failures that lookups and insertions can report, and their texts.

use vstd::prelude::*;

verus! {

/// A failed operation on a house or a room, with the name it was about.
#[derive(Debug)]
pub enum HouseError {
    /// A device of that name is already in the room.
    DeviceAlreadyExistsError(String),
    /// The house has no room of that name.
    RoomNotFoundError(String),
    /// The room has no device of that name.
    DeviceNotFoundError(String),
    /// A room of that name is already in the house.
    RoomAlreadyExistsError(String),
}

/// The mathematical value of a [`HouseError`]: the kind of failure and the
/// name as a sequence of characters.
pub enum HouseErrorView {
    DeviceAlreadyExistsError(Seq<char>),
    RoomNotFoundError(Seq<char>),
    DeviceNotFoundError(Seq<char>),
    RoomAlreadyExistsError(Seq<char>),
}

impl View for HouseError {
    type V = HouseErrorView;

    open spec fn view(&self) -> HouseErrorView {
        match self {
            HouseError::DeviceAlreadyExistsError(name) => HouseErrorView::DeviceAlreadyExistsError(
                name@,
            ),
            HouseError::RoomNotFoundError(name) => HouseErrorView::RoomNotFoundError(name@),
            HouseError::DeviceNotFoundError(name) => HouseErrorView::DeviceNotFoundError(name@),
            HouseError::RoomAlreadyExistsError(name) => HouseErrorView::RoomAlreadyExistsError(
                name@,
            ),
        }
    }
}

impl HouseErrorView {
    /// The one-line description of the failure.
    pub open spec fn message(self) -> Seq<char> {
        match self {
            HouseErrorView::RoomNotFoundError(name) => "Room `"@ + name + "` not found"@,
            HouseErrorView::RoomAlreadyExistsError(name) => "Room `"@ + name + "` already exists"@,
            HouseErrorView::DeviceAlreadyExistsError(name) => "Device `"@ + name
                + "` already exists"@,
            HouseErrorView::DeviceNotFoundError(name) => "Device not found: "@ + name,
        }
    }
}

impl HouseError {
    /// The one-line description of the failure.
    pub fn message(&self) -> (r: String)
        ensures
            r@ == self@.message(),
    {
        match self {
            HouseError::RoomNotFoundError(name) => {
                let mut text = "Room `".to_owned();
                text.append(name.as_str());
                text.append("` not found");
                text
            },
            HouseError::RoomAlreadyExistsError(name) => {
                let mut text = "Room `".to_owned();
                text.append(name.as_str());
                text.append("` already exists");
                text
            },
            HouseError::DeviceAlreadyExistsError(name) => {
                let mut text = "Device `".to_owned();
                text.append(name.as_str());
                text.append("` already exists");
                text
            },
            HouseError::DeviceNotFoundError(name) => {
                let mut text = "Device not found: ".to_owned();
                text.append(name.as_str());
                text
            },
        }
    }
}

/// The texts of the listed causes.
pub open spec fn texts(causes: Seq<String>) -> Seq<Seq<char>> {
    causes.map_values(|cause: String| cause@)
}

/// The entries of the causes, one after another: each cause is announced on
/// a line of its own and described, after a tab, on the next.
pub open spec fn causes_text(causes: Seq<Seq<char>>) -> Seq<char>
    decreases causes.len(),
{
    if causes.len() == 0 {
        Seq::empty()
    } else {
        causes_text(causes.drop_last()) + "Caused by:\n\t"@ + causes.last() + "\n"@
    }
}

/// A failure written out with the chain of its causes: the description, an
/// empty line, then the entries of the causes, the nearest first.
pub open spec fn chain_text(error: Seq<char>, causes: Seq<Seq<char>>) -> Seq<char> {
    error + "\n\n"@ + causes_text(causes)
}

/// Writes out a failure with the chain of its causes. `error` is the
/// description of the failure, `causes` are the descriptions of what led to
/// it, the nearest first. A [`HouseError`] has no cause: its chain is its
/// message and an empty line.
pub fn error_chain_fmt(error: &str, causes: &Vec<String>) -> (r: String)
    ensures
        r@ == chain_text(error@, texts(causes@)),
{
    let mut text = error.to_owned();
    text.append("\n\n");
    let mut i: usize = 0;
    while i < causes.len()
        invariant
            i <= causes.len(),
            text@ == chain_text(error@, texts(causes@).take(i as int)),
        decreases causes.len() - i,
    {
        text.append("Caused by:\n\t");
        text.append(causes[i].as_str());
        text.append("\n");
        proof {
            let next = texts(causes@).take(i + 1);
            assert(next.drop_last() =~= texts(causes@).take(i as int));
        }
        i += 1;
    }
    assert(texts(causes@).take(i as int) =~= texts(causes@));
    text
}

} // verus!
