//! One cached room: its identifier, display name, message history and
//! membership state, with the merge rule that refreshes a cached room
//! without ever discarding known-good data on a failed fetch.

use vstd::prelude::*;

use crate::message::{DisplayMessage, MessageModel};

verus! {

/// Membership of the logged-in user in a room, as last observed.
#[derive(Clone, Copy, Debug, PartialEq, Eq, Structural)]
pub enum Membership {
    /// The user has joined the room.
    Joined,
    /// The user has a pending invitation to the room.
    Invited,
    /// The user left the room.
    Left,
}

/// Error kept in place of a room field that could not be fetched.
#[derive(Debug)]
pub struct FetchError {
    /// Human-readable description of the failure
    text: String,
}

impl View for FetchError {
    type V = Seq<char>;

    closed spec fn view(&self) -> Seq<char> {
        self.text@
    }
}

impl FetchError {
    /// Wraps a failure description.
    pub fn new(text: String) -> (r: Self)
        ensures
            r@ == text@,
    {
        FetchError { text }
    }

    /// Returns the failure description.
    pub fn as_text(&self) -> (r: &str)
        ensures
            r@ == self@,
    {
        self.text.as_str()
    }
}

/// Mathematical view of one cached room.
#[verifier::ext_equal]
pub struct RoomModel {
    pub id: Seq<char>,
    pub name: Result<Seq<char>, Seq<char>>,
    pub messages: Result<Seq<MessageModel>, Seq<char>>,
    pub membership: Membership,
}

/// View of a fetched name outcome.
pub open spec fn name_model(r: Result<String, FetchError>) -> Result<Seq<char>, Seq<char>> {
    match r {
        Ok(s) => Ok(s@),
        Err(e) => Err(e@),
    }
}

/// View of a fetched message-list outcome.
pub open spec fn messages_model(r: Result<Vec<DisplayMessage>, FetchError>) -> Result<
    Seq<MessageModel>,
    Seq<char>,
> {
    match r {
        Ok(v) => Ok(v@.map_values(|m: DisplayMessage| m@)),
        Err(e) => Err(e@),
    }
}

/// The merge rule for one independently fallible field: the cached value is
/// replaced exactly when the fresh value is a success or the cached value is
/// a failure. A successful cached value is never overwritten by a failure; a
/// failed cached value is always replaced by whatever arrives next.
pub open spec fn merge_field<T>(cached: Result<T, Seq<char>>, fresh: Result<T, Seq<char>>) -> Result<
    T,
    Seq<char>,
> {
    if fresh is Ok || cached is Err {
        fresh
    } else {
        cached
    }
}

/// The merge of a freshly fetched room into its cached counterpart: the
/// identifier is stable, each fallible field follows [`merge_field`]
/// independently, and the membership is always the freshly observed one.
pub open spec fn merge_room(cached: RoomModel, fresh: RoomModel) -> RoomModel {
    RoomModel {
        id: cached.id,
        name: merge_field(cached.name, fresh.name),
        messages: merge_field(cached.messages, fresh.messages),
        membership: fresh.membership,
    }
}

/// A successful cached field is never overwritten by a failed fresh fetch:
/// refreshing cannot regress the cache from good to bad.
pub proof fn lemma_merge_never_regresses(cached: RoomModel, fresh: RoomModel)
    ensures
        cached.messages is Ok && fresh.messages is Err ==> merge_room(cached, fresh).messages
            == cached.messages,
        cached.name is Ok && fresh.name is Err ==> merge_room(cached, fresh).name == cached.name,
{
}

/// A successful fresh fetch is always adopted, and a failed cached field is
/// always replaced by whatever arrives next.
pub proof fn lemma_merge_adopts_success(cached: RoomModel, fresh: RoomModel)
    ensures
        fresh.messages is Ok ==> merge_room(cached, fresh).messages == fresh.messages,
        fresh.name is Ok ==> merge_room(cached, fresh).name == fresh.name,
        cached.messages is Err ==> merge_room(cached, fresh).messages == fresh.messages,
        cached.name is Err ==> merge_room(cached, fresh).name == fresh.name,
{
}

/// The cached messages after a merge depend only on the fetched messages:
/// the outcome of the name fetch cannot affect them.
pub proof fn lemma_messages_independent_of_name(
    cached: RoomModel,
    fresh_a: RoomModel,
    fresh_b: RoomModel,
)
    requires
        fresh_a.messages == fresh_b.messages,
    ensures
        merge_room(cached, fresh_a).messages == merge_room(cached, fresh_b).messages,
{
}

/// The cached name after a merge depends only on the fetched name: the
/// outcome of the message fetch cannot affect it.
pub proof fn lemma_name_independent_of_messages(
    cached: RoomModel,
    fresh_a: RoomModel,
    fresh_b: RoomModel,
)
    requires
        fresh_a.name == fresh_b.name,
    ensures
        merge_room(cached, fresh_a).name == merge_room(cached, fresh_b).name,
{
}

/// One cached room.
///
/// The identifier is stable and never changes after creation; the name and
/// the message history are fetched independently and each can be a cached
/// failure without invalidating the other.
pub struct DisplayRoom {
    /// Message history, oldest first, or the error of the last failed fetch
    messages: Result<Vec<DisplayMessage>, FetchError>,
    /// Computed display name, or the error of the last failed fetch
    name: Result<String, FetchError>,
    /// Membership of the user in this room, as last observed
    membership: Membership,
    /// Server-assigned stable identifier; the reconciliation key
    room_id: String,
}

impl View for DisplayRoom {
    type V = RoomModel;

    closed spec fn view(&self) -> RoomModel {
        RoomModel {
            id: self.room_id@,
            name: name_model(self.name),
            messages: messages_model(self.messages),
            membership: self.membership,
        }
    }
}

impl DisplayRoom {
    /// Builds a cached room from one round of fetches. A failed field is
    /// stored as its error: first knowledge is better than none.
    pub fn new(
        room_id: String,
        name: Result<String, FetchError>,
        messages: Result<Vec<DisplayMessage>, FetchError>,
        membership: Membership,
    ) -> (r: Self)
        ensures
            r@ == (RoomModel {
                id: room_id@,
                name: name_model(name),
                messages: messages_model(messages),
                membership,
            }),
    {
        DisplayRoom { messages, name, membership, room_id }
    }

    /// Message history of the room, or the error of the last failed fetch.
    pub fn as_messages(&self) -> (r: Result<&Vec<DisplayMessage>, &FetchError>)
        ensures
            r is Ok <==> self@.messages is Ok,
            r is Ok ==> r->Ok_0@.map_values(|m: DisplayMessage| m@) == self@.messages->Ok_0,
            r is Err ==> r->Err_0@ == self@.messages->Err_0,
    {
        match &self.messages {
            Ok(v) => Ok(v),
            Err(e) => Err(e),
        }
    }

    /// Display name of the room, or the error of the last failed fetch.
    pub fn as_name(&self) -> (r: Result<&String, &FetchError>)
        ensures
            r is Ok <==> self@.name is Ok,
            r is Ok ==> r->Ok_0@ == self@.name->Ok_0,
            r is Err ==> r->Err_0@ == self@.name->Err_0,
    {
        match &self.name {
            Ok(s) => Ok(s),
            Err(e) => Err(e),
        }
    }

    /// Whether an invitation is pending for this room.
    pub fn has_invitation(&self) -> (r: bool)
        ensures
            r == (self@.membership is Invited),
    {
        matches!(self.membership, Membership::Invited)
    }

    /// Membership of the user in this room, as last observed.
    pub fn membership(&self) -> (r: Membership)
        ensures
            r == self@.membership,
    {
        self.membership
    }

    /// Returns the room id.
    pub fn id(&self) -> (r: &String)
        ensures
            r@ == self@.id,
    {
        &self.room_id
    }

    /// Refreshes the room from one round of fetches, field by field, under
    /// the merge rule of [`merge_room`]: a field is replaced exactly when
    /// the fresh value is a success or the cached value is a failure.
    pub fn update_with(
        &mut self,
        messages: Result<Vec<DisplayMessage>, FetchError>,
        name: Result<String, FetchError>,
        membership: Membership,
    )
        ensures
            final(self)@ == merge_room(
                old(self)@,
                RoomModel {
                    id: old(self)@.id,
                    name: name_model(name),
                    messages: messages_model(messages),
                    membership,
                },
            ),
    {
        if messages.is_ok() || self.messages.is_err() {
            self.messages = messages;
        }
        if name.is_ok() || self.name.is_err() {
            self.name = name;
        }
        self.membership = membership;
    }

    /// Merges another snapshot of the same room into this one; the cached
    /// identifier is kept.
    pub fn update_from(&mut self, other: Self)
        ensures
            final(self)@ == merge_room(old(self)@, other@),
    {
        let DisplayRoom { messages, name, membership, room_id: _ } = other;
        self.update_with(messages, name, membership);
    }
}

} // verus!
