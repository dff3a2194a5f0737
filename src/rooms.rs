//! Fan-out of live whiteboard frames: one broadcast channel per hub.
use tokio::sync::broadcast::{Receiver, Sender};
use vstd::prelude::*;

verus! {

#[verifier::external_type_specification]
#[verifier::external_body]
#[verifier::reject_recursive_types(T)]
pub struct ExSender<T>(Sender<T>);

#[verifier::external_type_specification]
#[verifier::external_body]
#[verifier::reject_recursive_types(T)]
pub struct ExReceiver<T>(Receiver<T>);

/// How many frames a channel keeps for a subscriber that has not yet
/// received them; older frames are dropped for that subscriber.
pub uninterp spec fn channel_capacity(s: Sender<String>) -> nat;

/// Relies on `tokio::sync::broadcast::Sender::new`: it keeps `capacity`
/// rounded up to the next power of two, has accepted no frame yet, and
/// panics on a zero capacity or one above `usize::MAX / 2`.
#[verifier::external_body]
fn new_channel(capacity: usize) -> (s: Sender<String>)
    requires
        0 < capacity <= usize::MAX / 2,
    ensures
        capacity <= channel_capacity(s) < 2 * capacity,
        channel_frames(s) == Seq::<Seq<char>>::empty(),
{
    Sender::new(capacity)
}

/// Relies on `tokio::sync::broadcast::Sender::subscribe`: a receiver of every
/// value sent after the call. (It panics only when `usize::MAX >> 2`
/// receivers are alive at once.)
pub assume_specification<T>[ Sender::<T>::subscribe ](s: &Sender<T>) -> Receiver<T>;

/// The frames a channel has accepted for its subscribers, in order.
pub uninterp spec fn channel_frames(s: Sender<String>) -> Seq<Seq<char>>;

/// Relies on `tokio::sync::broadcast::Sender::send`: with at least one live
/// receiver it queues the frame after the earlier ones and succeeds; with
/// none it fails and nothing is queued. The channel keeps its capacity.
#[verifier::external_body]
fn send_frame(s: &mut Sender<String>, frame: String) -> (r: bool)
    ensures
        r ==> channel_frames(*final(s)) == channel_frames(*old(s)).push(frame@),
        !r ==> channel_frames(*final(s)) == channel_frames(*old(s)),
        channel_capacity(*final(s)) == channel_capacity(*old(s)),
{
    s.send(frame).is_ok()
}

/// Frames that a slow subscriber may have pending before it misses some.
pub const ROOM_CAPACITY: usize = 100;

struct Room {
    hub_id: String,
    sender: Sender<String>,
}

/// The rooms of live hubs. A room is made on the first join for its hub and
/// kept afterwards, so a room number, once handed out, always designates the
/// same hub and the same channel.
pub struct RoomMap {
    rooms: Vec<Room>,
}

/// A session's place in a room: the room's number and the receiving end of
/// its channel.
pub struct Subscription {
    pub hub_id: String,
    pub room: usize,
    pub receiver: Receiver<String>,
}

impl View for RoomMap {
    /// The hub id of each room, by room number.
    type V = Seq<Seq<char>>;

    closed spec fn view(&self) -> Seq<Seq<char>> {
        self.rooms@.map_values(|r: Room| r.hub_id@)
    }
}

impl RoomMap {
    /// The channel of room `i`.
    pub closed spec fn channel(&self, i: int) -> Sender<String> {
        self.rooms@[i].sender
    }

    /// No two rooms serve the same hub, and every room's channel was made
    /// for [`ROOM_CAPACITY`] frames (kept as the next power of two).
    pub open spec fn wf(&self) -> bool {
        &&& forall|i: int, j: int| 0 <= i < j < self@.len() ==> #[trigger] self@[i] != #[trigger] self@[j]
        &&& forall|i: int| 0 <= i < self@.len() ==> ROOM_CAPACITY <= channel_capacity(#[trigger] self.channel(i))
            < 2 * ROOM_CAPACITY
    }

    pub fn new() -> (r: RoomMap)
        ensures
            r.wf(),
            r@ == Seq::<Seq<char>>::empty(),
    {
        let r = RoomMap { rooms: Vec::new() };
        assert(r@ =~= Seq::<Seq<char>>::empty());
        r
    }

    /// The number of the room of a hub, if it has one.
    pub fn room_of(&self, hub_id: &str) -> (r: Option<usize>)
        requires
            self.wf(),
        ensures
            match r {
                Some(i) => i < self@.len() && self@[i as int] == hub_id@,
                None => !self@.contains(hub_id@),
            },
    {
        let wanted = String::from_str(hub_id);
        let mut i: usize = 0;
        while i < self.rooms.len()
            invariant
                i <= self.rooms@.len(),
                wanted@ == hub_id@,
                self@.len() == self.rooms@.len(),
                forall|j: int| 0 <= j < i ==> self@[j] != hub_id@,
            decreases self.rooms.len() - i,
        {
            if self.rooms[i].hub_id == wanted {
                return Some(i);
            }
            i = i + 1;
        }
        None
    }

    /// Joins the room of a hub, making it if this is the hub's first join.
    /// Rooms that existed keep their numbers and channels.
    pub fn join(&mut self, hub_id: &str) -> (r: Subscription)
        requires
            old(self).wf(),
        ensures
            final(self).wf(),
            old(self)@.contains(hub_id@) ==> final(self)@ == old(self)@,
            !old(self)@.contains(hub_id@) ==> final(self)@ == old(self)@.push(hub_id@),
            forall|i: int| 0 <= i < old(self)@.len() ==> #[trigger] final(self).channel(i) == old(self).channel(i),
            r.room < final(self)@.len(),
            final(self)@[r.room as int] == hub_id@,
            ROOM_CAPACITY <= channel_capacity(final(self).channel(r.room as int)) < 2 * ROOM_CAPACITY,
            r.hub_id@ == hub_id@,
    {
        let room = match self.room_of(hub_id) {
            Some(i) => i,
            None => {
                let ghost before = self@;
                let ghost before_rooms = self.rooms@;
                let sender = new_channel(ROOM_CAPACITY);
                self.rooms.push(Room { hub_id: String::from_str(hub_id), sender });
                assert(self@ =~= before.push(hub_id@));
                assert forall|i: int| 0 <= i < self@.len() implies ROOM_CAPACITY <= channel_capacity(
                    #[trigger] self.channel(i),
                ) < 2 * ROOM_CAPACITY by {
                    if i < before.len() {
                        assert(self.rooms@[i] == before_rooms[i]);
                        assert(old(self).channel(i) == self.channel(i));
                    }
                }
                self.rooms.len() - 1
            },
        };
        let receiver = self.rooms[room].sender.subscribe();
        Subscription { hub_id: String::from_str(hub_id), room, receiver }
    }

    /// Sends a frame to every current subscriber of a hub's room. Subscribers
    /// with a full queue miss it; with no room or no subscriber nothing
    /// happens. Returns the room the frame went to. Only that room's channel
    /// changes: it takes the frame after the earlier ones, unless it has no
    /// subscriber.
    pub fn publish(&mut self, hub_id: &str, frame: String) -> (r: Option<usize>)
        requires
            old(self).wf(),
        ensures
            final(self).wf(),
            final(self)@ == old(self)@,
            match r {
                Some(i) => i < old(self)@.len() && old(self)@[i as int] == hub_id@
                    && (channel_frames(final(self).channel(i as int)) == channel_frames(
                    old(self).channel(i as int),
                ).push(frame@) || channel_frames(final(self).channel(i as int)) == channel_frames(
                    old(self).channel(i as int),
                )),
                None => !old(self)@.contains(hub_id@),
            },
            forall|j: int|
                0 <= j < old(self)@.len() && r != Some(j as usize) ==> #[trigger] final(self).channel(j)
                    == old(self).channel(j),
    {
        match self.room_of(hub_id) {
            Some(i) => {
                let ghost before = self.rooms@;
                let mut room = self.rooms.remove(i);
                let _ = send_frame(&mut room.sender, frame);
                self.rooms.insert(i, room);
                assert(self@ =~= old(self)@) by {
                    assert forall|j: int| 0 <= j < self@.len() implies self@[j] == old(self)@[j] by {
                        if j != i {
                            assert(self.rooms@[j] == before[j]);
                        }
                    }
                }
                assert forall|j: int| 0 <= j < self@.len() implies ROOM_CAPACITY <= channel_capacity(
                    #[trigger] self.channel(j),
                ) < 2 * ROOM_CAPACITY by {
                    if j != i {
                        assert(self.rooms@[j] == before[j]);
                        assert(old(self).channel(j) == self.channel(j));
                    } else {
                        assert(old(self).channel(j) == before[j].sender);
                    }
                }
                assert forall|j: int| 0 <= j < old(self)@.len() && Some(i) != Some(j as usize) implies #[trigger] self.channel(j)
                    == old(self).channel(j) by {
                    assert(self.rooms@[j] == before[j]);
                }
                Some(i)
            },
            None => None,
        }
    }
}

/// Frames are routed by hub: a frame published for one hub reaches the room
/// that every session of that hub joined, and never the room of a session
/// joined to another hub.
pub proof fn lemma_rooms_route_by_hub(m: RoomMap, published: int, joined: int)
    requires
        m.wf(),
        0 <= published < m@.len(),
        0 <= joined < m@.len(),
    ensures
        (published == joined) <==> (m@[published] == m@[joined]),
{
}

} // verus!
