//! The chat panel: the currently selected room, or the popup or error
//! shown in its place, with the dispatch rule that offers each event to
//! the one active child and turns what the child decides into a remote
//! action request for the caller to perform.

pub mod create;
pub mod discussion;
pub mod invite_member;
pub mod invited;
pub mod invited_not_joined;
pub mod search;

use vstd::prelude::*;

use crate::cache::{has_room, room_index, spec_reconcile, RoomCache};
use crate::current_room::create::{spec_blank_create, spec_create_step, CreateRoom, CreateRoomAction};
use crate::current_room::discussion::{
    spec_blank_prompt, spec_discussion_step, Discussion, DiscussionModel,
};
use crate::current_room::invite_member::{
    spec_blank_person, spec_invite_step, InviteMemberModel, InviteMemberPopup,
};
use crate::current_room::invited_not_joined::InvitationToRoomPopup;
use crate::current_room::search::{
    spec_search_step, spec_search_wf, RoomSearch, RoomSearchModel,
};
use crate::event::{spec_key_press, Event, KeyCode};
use crate::input::InputModel;
use crate::room::{DisplayRoom, RoomModel};

verus! {

/// Mathematical view of the content of the chat panel.
#[verifier::ext_equal]
pub enum CurrentRoomChildModel {
    /// A popup to create a new room, over the previously open room's key
    CreateRoom(InputModel, Option<Seq<char>>),
    /// A valid room discussion is open
    Discussion(DiscussionModel),
    /// An error is displayed, over the previously open room's key
    Error(Seq<char>, Option<Seq<char>>),
    /// A popup to invite someone into a room
    Invite(InviteMemberModel),
    /// The room has a pending invitation the user may accept
    Invited(Seq<char>),
    /// No room was selected yet
    NoRoom,
    /// A search popup, over the previously open room's key
    Search(RoomSearchModel, Option<Seq<char>>),
}

/// Mathematical view of the chat panel.
#[verifier::ext_equal]
pub struct CurrentRoomModel {
    pub child: CurrentRoomChildModel,
    pub room_name: Seq<char>,
}

/// A remote action the chat panel asks its caller to perform.
pub enum RoomCommandModel {
    /// Create a room under the typed name (possibly empty)
    Create(Seq<char>),
    /// Send a message body into the room with the given key
    Send { room_id: Seq<char>, body: Seq<char> },
    /// Invite a user into the room with the given key
    Invite { room_id: Seq<char>, user: Seq<char> },
    /// Join the room with the given key, accepting its invitation
    AcceptInvitation { room_id: Seq<char> },
}

/// A remote action the chat panel asks its caller to perform. The panel
/// only decides; the caller performs the network call and reports its
/// outcome back.
pub enum RoomCommand {
    /// Create a room under the typed name (possibly empty)
    Create(CreateRoomAction),
    /// Send a message body into the room with the given key
    Send { room_id: String, body: String },
    /// Invite a user into the room with the given key
    Invite { room_id: String, user: String },
    /// Join the room with the given key, accepting its invitation
    AcceptInvitation { room_id: String },
}

impl View for RoomCommand {
    type V = RoomCommandModel;

    open spec fn view(&self) -> RoomCommandModel {
        match self {
            RoomCommand::Create(action) => RoomCommandModel::Create(action.0@),
            RoomCommand::Send { room_id, body } => RoomCommandModel::Send {
                room_id: room_id@,
                body: body@,
            },
            RoomCommand::Invite { room_id, user } => RoomCommandModel::Invite {
                room_id: room_id@,
                user: user@,
            },
            RoomCommand::AcceptInvitation { room_id } => RoomCommandModel::AcceptInvitation {
                room_id: room_id@,
            },
        }
    }
}

/// The previously open room's key carried by the content, if any.
pub open spec fn spec_take_room(c: CurrentRoomChildModel) -> Option<Seq<char>> {
    match c {
        CurrentRoomChildModel::CreateRoom(_, prior) => prior,
        CurrentRoomChildModel::Discussion(d) => Some(d.room_id),
        CurrentRoomChildModel::Error(_, prior) => prior,
        CurrentRoomChildModel::Invite(i) => Some(i.room_id),
        CurrentRoomChildModel::Invited(id) => Some(id),
        CurrentRoomChildModel::NoRoom => Option::None,
        CurrentRoomChildModel::Search(_, prior) => prior,
    }
}

/// Whether a room is currently specified.
pub open spec fn spec_has_room(c: CurrentRoomChildModel) -> bool {
    spec_take_room(c) is Some
}

/// Whether the content is an active child that consumes events — an open
/// popup or discussion. An error display and the blank panel consume
/// nothing.
pub open spec fn spec_child_consumes(c: CurrentRoomChildModel) -> bool {
    !(c is NoRoom || c is Error)
}

/// Whether the content is a discussion of the room with the given key.
pub open spec fn spec_child_is_room(c: CurrentRoomChildModel, id: Seq<char>) -> bool {
    match c {
        CurrentRoomChildModel::Discussion(d) => d.room_id == id,
        _ => false,
    }
}

/// The name shown for a room whose display name could not be computed.
pub open spec fn spec_unknown_channel() -> Seq<char> {
    "<unknown channel>"@
}

/// A freshly opened discussion of the given room.
pub open spec fn spec_blank_discussion(room_id: Seq<char>) -> DiscussionModel {
    DiscussionModel { error: Option::None, prompt: spec_blank_prompt(), room_id }
}

/// What opening a room does to the panel: the header takes the room's
/// name (or a placeholder), a pending invitation shows its popup, a room
/// whose history failed to load shows the error, and any other room opens
/// as a discussion — unless the same room's discussion is already open,
/// which is left as it is.
pub open spec fn spec_select(m: CurrentRoomModel, room: RoomModel) -> CurrentRoomModel {
    let name = if room.name is Ok {
        room.name->Ok_0
    } else {
        spec_unknown_channel()
    };
    if room.membership is Invited {
        CurrentRoomModel { room_name: name, child: CurrentRoomChildModel::Invited(room.id) }
    } else if room.messages is Err {
        CurrentRoomModel {
            room_name: name,
            child: CurrentRoomChildModel::Error(room.messages->Err_0, Some(room.id)),
        }
    } else if !spec_child_is_room(m.child, room.id) {
        CurrentRoomModel {
            room_name: name,
            child: CurrentRoomChildModel::Discussion(spec_blank_discussion(room.id)),
        }
    } else {
        CurrentRoomModel { room_name: name, ..m }
    }
}

/// The panel's content after the event is offered to the active child,
/// with the remote action the child asked for.
pub open spec fn spec_child_step(m: CurrentRoomModel, event: Event, rooms: Seq<RoomModel>) -> (
    CurrentRoomModel,
    Option<RoomCommandModel>,
) {
    match m.child {
        CurrentRoomChildModel::CreateRoom(input, prior) => {
            let (edited, name) = spec_create_step(input, event);
            (
                CurrentRoomModel { child: CurrentRoomChildModel::CreateRoom(edited, prior), ..m },
                match name {
                    Some(n) => Some(RoomCommandModel::Create(n)),
                    Option::None => Option::None,
                },
            )
        },
        CurrentRoomChildModel::Discussion(d) => {
            let (edited, body) = spec_discussion_step(d, event);
            (
                CurrentRoomModel { child: CurrentRoomChildModel::Discussion(edited), ..m },
                match body {
                    Some(b) => Some(RoomCommandModel::Send { room_id: d.room_id, body: b }),
                    Option::None => Option::None,
                },
            )
        },
        CurrentRoomChildModel::Invite(im) => {
            let (edited, user) = spec_invite_step(im, event);
            (
                CurrentRoomModel { child: CurrentRoomChildModel::Invite(edited), ..m },
                match user {
                    Some(u) => Some(RoomCommandModel::Invite { room_id: im.room_id, user: u }),
                    Option::None => Option::None,
                },
            )
        },
        CurrentRoomChildModel::Invited(id) => (
            m,
            match spec_key_press(event) {
                Some(k) => if k.code is Enter {
                    Some(RoomCommandModel::AcceptInvitation { room_id: id })
                } else {
                    Option::None
                },
                Option::None => Option::None,
            },
        ),
        CurrentRoomChildModel::Search(s, prior) => match spec_key_press(event) {
            Option::None => (m, Option::None),
            Some(k) => if k.code is CapsLock {
                let base = CurrentRoomModel {
                    child: CurrentRoomChildModel::NoRoom,
                    room_name: m.room_name,
                };
                match prior {
                    Some(id) => if has_room(rooms, id) {
                        (spec_select(base, rooms[room_index(rooms, id)]), Option::None)
                    } else {
                        (base, Option::None)
                    },
                    Option::None => (base, Option::None),
                }
            } else {
                let (searched, sel) = spec_search_step(s, event, rooms);
                let m2 = CurrentRoomModel {
                    child: CurrentRoomChildModel::Search(searched, prior),
                    ..m
                };
                match sel {
                    Some(idx) => if 0 <= idx < rooms.len() {
                        (spec_select(m2, rooms[idx]), Option::None)
                    } else {
                        (m2, Option::None)
                    },
                    Option::None => (m2, Option::None),
                }
            },
        },
        CurrentRoomChildModel::NoRoom => (m, Option::None),
        CurrentRoomChildModel::Error(_, _) => (m, Option::None),
    }
}

/// What one event does to the chat panel: a create-room shortcut opens
/// the creation popup over the current room, an invite shortcut opens the
/// invitation popup for it (freshly blank — the shortcut key itself is
/// not offered to the popup), and otherwise the event goes to the active
/// child as [`spec_child_step`] says.
pub open spec fn spec_room_step(m: CurrentRoomModel, event: Event, rooms: Seq<RoomModel>) -> (
    CurrentRoomModel,
    Option<RoomCommandModel>,
) {
    let k = spec_key_press(event);
    if k is Some && k->0.ctrl && k->0.code == KeyCode::Char('n') {
        (
            CurrentRoomModel {
                child: CurrentRoomChildModel::CreateRoom(
                    spec_blank_create(),
                    spec_take_room(m.child),
                ),
                ..m
            },
            Option::None,
        )
    } else if k is Some && k->0.ctrl && k->0.code == KeyCode::Char('j') && spec_has_room(m.child) {
        (
            CurrentRoomModel {
                child: CurrentRoomChildModel::Invite(
                    InviteMemberModel {
                        error: Option::None,
                        person: spec_blank_person(),
                        room_id: spec_take_room(m.child)->0,
                    },
                ),
                ..m
            },
            Option::None,
        )
    } else {
        spec_child_step(m, event, rooms)
    }
}

/// Content displayed in the chat panel.
pub enum CurrentRoomChild {
    /// A popup to create a new room, over the previously open room's key
    CreateRoom(CreateRoom, Option<String>),
    /// A valid room discussion is open
    Discussion(Discussion),
    /// An error occurred and is displayed, over the previous room's key
    Error(String, Option<String>),
    /// A popup to invite someone into a room
    Invite(InviteMemberPopup),
    /// The room has a pending invitation the user may accept
    Invited(InvitationToRoomPopup, String),
    /// No room was selected yet
    NoRoom,
    /// A search popup, over the previously open room's key
    Search(RoomSearch, Option<String>),
}

impl View for CurrentRoomChild {
    type V = CurrentRoomChildModel;

    open spec fn view(&self) -> CurrentRoomChildModel {
        match self {
            CurrentRoomChild::CreateRoom(c, prior) => CurrentRoomChildModel::CreateRoom(
                c@,
                match prior {
                    Some(p) => Some(p@),
                    None => Option::None,
                },
            ),
            CurrentRoomChild::Discussion(d) => CurrentRoomChildModel::Discussion(d@),
            CurrentRoomChild::Error(e, prior) => CurrentRoomChildModel::Error(
                e@,
                match prior {
                    Some(p) => Some(p@),
                    None => Option::None,
                },
            ),
            CurrentRoomChild::Invite(i) => CurrentRoomChildModel::Invite(i@),
            CurrentRoomChild::Invited(_, id) => CurrentRoomChildModel::Invited(id@),
            CurrentRoomChild::NoRoom => CurrentRoomChildModel::NoRoom,
            CurrentRoomChild::Search(s, prior) => CurrentRoomChildModel::Search(
                s@,
                match prior {
                    Some(p) => Some(p@),
                    None => Option::None,
                },
            ),
        }
    }
}

impl CurrentRoomChild {
    /// Whether a room is currently specified.
    pub fn has_room(&self) -> (r: bool)
        ensures
            r == spec_has_room(self@),
    {
        match self {
            CurrentRoomChild::Discussion(_) => true,
            CurrentRoomChild::Invite(_) => true,
            CurrentRoomChild::Invited(_, _) => true,
            CurrentRoomChild::NoRoom => false,
            CurrentRoomChild::Error(_, room) => room.is_some(),
            CurrentRoomChild::CreateRoom(_, room) => room.is_some(),
            CurrentRoomChild::Search(_, room) => room.is_some(),
        }
    }

    /// Whether the content is a discussion, so the user can interact with
    /// the room without issues.
    pub fn is_discussion(&self) -> (r: bool)
        ensures
            r == (self@ is Discussion),
    {
        matches!(self, CurrentRoomChild::Discussion(_))
    }

    /// Whether the content is an active child that consumes events — an
    /// open popup or discussion. An error display and the blank panel
    /// consume nothing, so the room list reacts instead.
    pub fn consumes_events(&self) -> (r: bool)
        ensures
            r == spec_child_consumes(self@),
    {
        !matches!(self, CurrentRoomChild::NoRoom | CurrentRoomChild::Error(_, _))
    }

    /// Whether the content is a discussion of the provided room.
    pub fn room_is(&self, other: &DisplayRoom) -> (r: bool)
        ensures
            r == spec_child_is_room(self@, other@.id),
    {
        if let CurrentRoomChild::Discussion(room) = self {
            room.room_is(other)
        } else {
            false
        }
    }

    /// Clears the content and returns the underlying room's key, if one
    /// exists.
    pub fn take_room(&mut self) -> (r: Option<String>)
        ensures
            final(self)@ is NoRoom,
            r is Some <==> spec_take_room(old(self)@) is Some,
            r is Some ==> r->0@ == spec_take_room(old(self)@)->0,
    {
        let mut taken = CurrentRoomChild::NoRoom;
        core::mem::swap(&mut taken, self);
        match taken {
            CurrentRoomChild::CreateRoom(_, prior) => prior,
            CurrentRoomChild::Discussion(discussion) => Some(discussion.into_room()),
            CurrentRoomChild::Error(_, prior) => prior,
            CurrentRoomChild::Invite(invite) => Some(invite.into_room()),
            CurrentRoomChild::Invited(_, room_id) => Some(room_id),
            CurrentRoomChild::NoRoom => None,
            CurrentRoomChild::Search(_, prior) => prior,
        }
    }
}

/// Data sent to the chat panel to update it from the outside.
pub enum UpdateCurrentRoomPanel {
    /// Display an error over the current room
    Error(String),
    /// Open the cached room with the given key
    NewRoom(String),
    /// Open a search popup over the cached rooms
    Search,
}

/// Mathematical view of an update request for the chat panel.
pub enum UpdatePanelModel {
    Error(Seq<char>),
    NewRoom(Seq<char>),
    Search,
}

impl View for UpdateCurrentRoomPanel {
    type V = UpdatePanelModel;

    open spec fn view(&self) -> UpdatePanelModel {
        match self {
            UpdateCurrentRoomPanel::Error(e) => UpdatePanelModel::Error(e@),
            UpdateCurrentRoomPanel::NewRoom(id) => UpdatePanelModel::NewRoom(id@),
            UpdateCurrentRoomPanel::Search => UpdatePanelModel::Search,
        }
    }
}

/// What an update request does to the panel: an error covers the current
/// room but keeps its key, a new room is opened as [`spec_select`] says,
/// and a search opens over the current room.
pub open spec fn spec_update_panel(
    m: CurrentRoomModel,
    response: UpdatePanelModel,
    rooms: Seq<RoomModel>,
) -> CurrentRoomModel {
    match response {
        UpdatePanelModel::Error(e) => CurrentRoomModel {
            child: CurrentRoomChildModel::Error(e, spec_take_room(m.child)),
            ..m
        },
        UpdatePanelModel::NewRoom(id) => if has_room(rooms, id) {
            spec_select(m, rooms[room_index(rooms, id)])
        } else {
            m
        },
        UpdatePanelModel::Search => CurrentRoomModel {
            child: CurrentRoomChildModel::Search(
                crate::current_room::search::spec_blank_search(),
                spec_take_room(m.child),
            ),
            ..m
        },
    }
}

/// Chat panel with the currently selected room, or the popup or error
/// shown in its place.
pub struct CurrentRoom {
    /// Content currently displayed in the panel
    child: CurrentRoomChild,
    /// Name of the room that is currently selected
    room_name: String,
}

impl View for CurrentRoom {
    type V = CurrentRoomModel;

    closed spec fn view(&self) -> CurrentRoomModel {
        CurrentRoomModel { child: self.child@, room_name: self.room_name@ }
    }
}

impl Default for CurrentRoom {
    /// Opens the panel with no room selected.
    fn default() -> (r: Self)
        ensures
            r@ == (CurrentRoomModel {
                child: CurrentRoomChildModel::NoRoom,
                room_name: Seq::<char>::empty(),
            }),
            r.wf(),
    {
        let r = CurrentRoom { child: CurrentRoomChild::NoRoom, room_name: String::new() };
        proof {
            assert(r@ =~= (CurrentRoomModel {
                child: CurrentRoomChildModel::NoRoom,
                room_name: Seq::<char>::empty(),
            }));
        }
        r
    }
}

impl CurrentRoom {
    /// Invariant: an open search popup keeps its cursor inside its
    /// results.
    pub open spec fn wf(&self) -> bool {
        match self@.child {
            CurrentRoomChildModel::Search(s, _) => spec_search_wf(s),
            _ => true,
        }
    }

    /// The content of the panel, for rendering.
    pub fn child(&self) -> (r: &CurrentRoomChild)
        ensures
            r@ == self@.child,
    {
        &self.child
    }

    /// The name shown in the panel's header.
    pub fn room_name(&self) -> (r: &str)
        ensures
            r@ == self@.room_name,
    {
        self.room_name.as_str()
    }

    /// Opens a room in the panel, as [`spec_select`] says: its pending
    /// invitation, its load error, or its discussion.
    pub fn select_new_room(&mut self, room: &DisplayRoom)
        ensures
            final(self)@ == spec_select(old(self)@, room@),
            final(self).wf(),
    {
        self.room_name = match room.as_name() {
            Ok(name) => name.clone(),
            Err(_) => "<unknown channel>".to_owned(),
        };
        if room.has_invitation() {
            self.child = CurrentRoomChild::Invited(InvitationToRoomPopup, room.id().clone());
        } else {
            let messages_err = match room.as_messages() {
                Ok(_) => None,
                Err(e) => Some(e.as_text().to_owned()),
            };
            match messages_err {
                Some(err_msg) => {
                    self.child = CurrentRoomChild::Error(err_msg, Some(room.id().clone()));
                },
                None => {
                    if !self.child.room_is(room) {
                        self.child = CurrentRoomChild::Discussion(Discussion::new(room.id().clone()));
                    }
                },
            }
        }
        proof {
            assert(self@ =~= spec_select(old(self)@, room@));
        }
    }

    /// Offers one event to the panel and returns the remote action it
    /// asks for, as [`spec_room_step`] says. The panel only decides: the
    /// caller performs the action and reports its outcome back through
    /// [`CurrentRoom::update`], [`CurrentRoom::on_accept_result`] or
    /// [`CurrentRoom::on_invite_error`] or [`CurrentRoom::on_send_error`].
    pub fn on_event(&mut self, event: Event, cache: &RoomCache) -> (r: Option<RoomCommand>)
        requires
            cache.wf(),
            old(self).wf(),
        ensures
            final(self)@ == spec_room_step(old(self)@, event, cache@).0,
            r is Some <==> spec_room_step(old(self)@, event, cache@).1 is Some,
            r is Some ==> r->0@ == spec_room_step(old(self)@, event, cache@).1->0,
            final(self).wf(),
    {
        if let Some(key_event) = event.as_key_press_event() {
            if key_event.ctrl {
                if matches!(key_event.code, KeyCode::Char('n')) {
                    let old_room = self.child.take_room();
                    self.child = CurrentRoomChild::CreateRoom(CreateRoom::new(), old_room);
                    return None;
                }
                if matches!(key_event.code, KeyCode::Char('j')) && self.child.has_room() {
                    let taken = self.child.take_room();
                    if let Some(room_id) = taken {
                        self.child = CurrentRoomChild::Invite(InviteMemberPopup::new(room_id));
                    }
                    return None;
                }
            }
        }
        match &mut self.child {
            CurrentRoomChild::CreateRoom(create_room, _) => {
                let action = create_room.on_event(event);
                match action {
                    Some(a) => Some(RoomCommand::Create(a)),
                    None => None,
                }
            },
            CurrentRoomChild::Discussion(discussion) => {
                let body = discussion.on_event(event);
                match body {
                    Some(b) => Some(
                        RoomCommand::Send { room_id: discussion.room_id().clone(), body: b },
                    ),
                    None => None,
                }
            },
            CurrentRoomChild::Invite(invite_member) => {
                let user = invite_member.on_event(event);
                match user {
                    Some(u) => Some(
                        RoomCommand::Invite { room_id: invite_member.room_id().clone(), user: u },
                    ),
                    None => None,
                }
            },
            CurrentRoomChild::Invited(popup, room_id) => {
                match popup.on_event(event) {
                    Some(_) => Some(RoomCommand::AcceptInvitation { room_id: room_id.clone() }),
                    None => None,
                }
            },
            CurrentRoomChild::Search(search, _) => {
                let key_event = match event.as_key_press_event() {
                    Some(k) => k,
                    None => {
                        return None;
                    },
                };
                if matches!(key_event.code, KeyCode::CapsLock) {
                    let prior = self.child.take_room();
                    if let Some(room_id) = prior {
                        if let Some(room) = cache.find(room_id.as_str()) {
                            self.select_new_room(room);
                        }
                    }
                    None
                } else {
                    let selected = search.on_event(event, cache);
                    if let Some(index) = selected {
                        if index < cache.len() {
                            let room = cache.get(index);
                            self.select_new_room(room);
                        }
                    }
                    None
                }
            },
            CurrentRoomChild::NoRoom => None,
            CurrentRoomChild::Error(_, _) => None,
        }
    }

    /// Pushes an update into the panel, as [`spec_update_panel`] says.
    pub fn update(&mut self, response: UpdateCurrentRoomPanel, cache: &RoomCache)
        requires
            cache.wf(),
            old(self).wf(),
        ensures
            final(self)@ == spec_update_panel(old(self)@, response@, cache@),
            final(self).wf(),
    {
        match response {
            UpdateCurrentRoomPanel::Error(error) => {
                let old_room = self.child.take_room();
                self.child = CurrentRoomChild::Error(error, old_room);
            },
            UpdateCurrentRoomPanel::NewRoom(room_id) => {
                if let Some(room) = cache.find(room_id.as_str()) {
                    self.select_new_room(room);
                }
            },
            UpdateCurrentRoomPanel::Search => {
                let old_room = self.child.take_room();
                self.child = CurrentRoomChild::Search(RoomSearch::new(), old_room);
            },
        }
    }

    /// Records the outcome of an accepted invitation. On failure the
    /// panel shows the error and keeps the same room's key, so a later
    /// retry does not require navigating again; on success the freshly
    /// fetched room is reconciled into the cache and opened, normally as
    /// its discussion.
    pub fn on_accept_result(
        &mut self,
        cache: &mut RoomCache,
        room_id: String,
        result: Result<DisplayRoom, String>,
    )
        requires
            old(cache).wf(),
        ensures
            final(cache).wf(),
            result is Err ==> final(cache)@ == old(cache)@ && final(self)@ == (CurrentRoomModel {
                child: CurrentRoomChildModel::Error(result->Err_0@, Some(room_id@)),
                room_name: old(self)@.room_name,
            }),
            result is Ok ==> ({
                let reconciled = spec_reconcile(old(cache)@, result->Ok_0@);
                final(cache)@ == reconciled && final(self)@ == spec_select(
                    old(self)@,
                    reconciled[room_index(reconciled, result->Ok_0@.id)],
                )
            }),
            final(self).wf(),
    {
        match result {
            Err(error) => {
                self.child = CurrentRoomChild::Error(error, Some(room_id));
                proof {
                    assert(self@ =~= (CurrentRoomModel {
                        child: self@.child,
                        room_name: old(self)@.room_name,
                    }));
                }
            },
            Ok(fresh) => {
                let fresh_id = fresh.id().clone();
                proof {
                    crate::cache::lemma_reconcile_shape(cache@, fresh@);
                }
                cache.reconcile(fresh);
                match cache.find(fresh_id.as_str()) {
                    Some(room) => {
                        self.select_new_room(room);
                    },
                    None => {
                        proof {
                            assert(false);
                        }
                    },
                }
            },
        }
    }

    /// Records the error of a failed invitation: it is shown inline on
    /// the invitation popup, which stays open for a retry. Any other
    /// content ignores it.
    pub fn on_invite_error(&mut self, error: String)
        ensures
            final(self)@ == (match old(self)@.child {
                CurrentRoomChildModel::Invite(im) => CurrentRoomModel {
                    child: CurrentRoomChildModel::Invite(
                        InviteMemberModel { error: Some(error@), ..im },
                    ),
                    ..old(self)@
                },
                _ => old(self)@,
            }),
    {
        if let CurrentRoomChild::Invite(invite_member) = &mut self.child {
            invite_member.set_error(error);
        }
    }

    /// Records the error of a failed send: it is shown inline on the open
    /// discussion, whose prompt stays editable for a retry. Any other
    /// content ignores it.
    pub fn on_send_error(&mut self, error: String)
        ensures
            final(self)@ == (match old(self)@.child {
                CurrentRoomChildModel::Discussion(d) => CurrentRoomModel {
                    child: CurrentRoomChildModel::Discussion(
                        DiscussionModel { error: Some(error@), ..d },
                    ),
                    ..old(self)@
                },
                _ => old(self)@,
            }),
            old(self).wf() ==> final(self).wf(),
    {
        if let CurrentRoomChild::Discussion(discussion) = &mut self.child {
            discussion.set_error(error);
        }
    }
}

} // verus!
