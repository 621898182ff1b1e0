//! The chat page: the room-list menu beside the chat panel, and the
//! dispatch rule between them — each event is offered to at most one
//! active child: the panel whenever it shows an open popup or discussion
//! (or the key carries a shortcut modifier), otherwise the menu, whose
//! submit opens the selected room.

use vstd::prelude::*;

use crate::cache::RoomCache;
use crate::current_room::{
    spec_room_step, spec_select, spec_update_panel, CurrentRoom, CurrentRoomModel, RoomCommand,
    RoomCommandModel, UpdateCurrentRoomPanel, UpdatePanelModel,
};
use crate::event::{spec_key_press, Event, KeyCode};
use crate::room::{DisplayRoom, RoomModel};
use crate::widgets::{Instructions, InstructionPartModel, InstructionsBuilder};

verus! {

/// Room displayed in a plain list of rooms.
pub struct Room {
    /// Id of the room
    pub id: String,
    /// Name of the room
    pub name: String,
}

/// What one event does to the menu, and the selected position handed out
/// when it was a submit: arrows move the selection, stopping at the first
/// room and at the last.
pub open spec fn spec_menu_step(selected: int, event: Event, room_count: int) -> (int, Option<int>) {
    match spec_key_press(event) {
        Option::None => (selected, Option::None),
        Some(k) => match k.code {
            KeyCode::Up => (if selected == 0 { 0int } else { selected - 1 }, Option::None),
            KeyCode::Down => (
                if selected + 1 < room_count {
                    selected + 1
                } else {
                    selected
                },
                Option::None,
            ),
            KeyCode::Enter => (selected, Some(selected)),
            _ => (selected, Option::None),
        },
    }
}

/// Menu with the list of rooms: the selected entry can be moved and
/// opened; the rooms themselves are read from the cache at drawing time.
pub struct RoomList {
    /// Room selected on the side bar with the list of chats
    selected_room: usize,
}

impl View for RoomList {
    type V = int;

    closed spec fn view(&self) -> int {
        self.selected_room as int
    }
}

impl RoomList {
    /// Creates a new menu with the first room selected.
    pub fn new() -> (r: Self)
        ensures
            r@ == 0,
    {
        RoomList { selected_room: 0 }
    }

    /// The position of the selected room.
    pub fn selected(&self) -> (r: usize)
        ensures
            r as int == self@,
    {
        self.selected_room
    }

    /// Reacts to one event, as [`spec_menu_step`] says: arrows move the
    /// selection within the given number of rooms, a submit returns the
    /// selected position.
    pub fn on_event(&mut self, event: Event, room_count: usize) -> (r: Option<usize>)
        ensures
            final(self)@ == spec_menu_step(old(self)@, event, room_count as int).0,
            r is Some <==> spec_menu_step(old(self)@, event, room_count as int).1 is Some,
            r is Some ==> r->0 as int == spec_menu_step(old(self)@, event, room_count as int).1->0,
    {
        let key_event = match event.as_key_press_event() {
            Some(k) => k,
            None => {
                return None;
            },
        };
        match key_event.code {
            KeyCode::Up => {
                if self.selected_room > 0 {
                    self.selected_room = self.selected_room - 1;
                }
            },
            KeyCode::Down => {
                if self.selected_room < usize::MAX && self.selected_room + 1 < room_count {
                    self.selected_room = self.selected_room + 1;
                }
            },
            KeyCode::Enter => {
                return Some(self.selected_room);
            },
            _ => {},
        }
        None
    }

    /// Instructions displayed when no rooms are accessible yet.
    pub fn instructions() -> (r: Instructions)
        ensures
            r.parts@.map_values(|p: crate::widgets::InstructionPart| p@) == seq![
                InstructionPartModel::Text("You don't have access to any rooms. Press"@),
                InstructionPartModel::Key("C-n"@),
                InstructionPartModel::Text("to create a new chat or"@),
                InstructionPartModel::Key("C-b"@),
                InstructionPartModel::Text("to connect a bridge."@),
            ],
    {
        let r = InstructionsBuilder::default().text(
            "You don't have access to any rooms. Press".to_owned(),
        ).key("C-n".to_owned()).text("to create a new chat or".to_owned()).key(
            "C-b".to_owned(),
        ).text("to connect a bridge.".to_owned()).build();
        proof {
            assert(r.parts@.map_values(|p: crate::widgets::InstructionPart| p@) =~= seq![
                InstructionPartModel::Text("You don't have access to any rooms. Press"@),
                InstructionPartModel::Key("C-n"@),
                InstructionPartModel::Text("to create a new chat or"@),
                InstructionPartModel::Key("C-b"@),
                InstructionPartModel::Text("to connect a bridge."@),
            ]);
        }
        r
    }
}

/// Mathematical view of the chat page.
#[verifier::ext_equal]
pub struct ChatPageModel {
    pub current_room: CurrentRoomModel,
    pub menu: int,
}

/// A remote action the chat page asks its caller to perform.
pub enum ChatCommandModel {
    /// Create a room, under the given name when one was typed
    CreateRoom(Option<Seq<char>>),
    /// Send a message body into the room with the given key
    Send { room_id: Seq<char>, body: Seq<char> },
    /// Invite a user into the room with the given key
    Invite { room_id: Seq<char>, user: Seq<char> },
    /// Join the room with the given key, accepting its invitation
    AcceptInvitation { room_id: Seq<char> },
}

/// A remote action the chat page asks its caller to perform. The page
/// only decides; the caller performs the network call and reports its
/// outcome back.
pub enum ChatCommand {
    /// Create a room, under the given name when one was typed
    CreateRoom(Option<String>),
    /// Send a message body into the room with the given key
    Send { room_id: String, body: String },
    /// Invite a user into the room with the given key
    Invite { room_id: String, user: String },
    /// Join the room with the given key, accepting its invitation
    AcceptInvitation { room_id: String },
}

impl View for ChatCommand {
    type V = ChatCommandModel;

    open spec fn view(&self) -> ChatCommandModel {
        match self {
            ChatCommand::CreateRoom(name) => ChatCommandModel::CreateRoom(
                match name {
                    Some(n) => Some(n@),
                    None => Option::None,
                },
            ),
            ChatCommand::Send { room_id, body } => ChatCommandModel::Send {
                room_id: room_id@,
                body: body@,
            },
            ChatCommand::Invite { room_id, user } => ChatCommandModel::Invite {
                room_id: room_id@,
                user: user@,
            },
            ChatCommand::AcceptInvitation { room_id } => ChatCommandModel::AcceptInvitation {
                room_id: room_id@,
            },
        }
    }
}

/// The chat panel's action lifted to the page: an empty typed name
/// becomes an anonymous room creation, everything else passes through.
pub open spec fn spec_lift_command(cmd: RoomCommandModel) -> ChatCommandModel {
    match cmd {
        RoomCommandModel::Create(name) => ChatCommandModel::CreateRoom(
            if name.len() == 0 {
                Option::None
            } else {
                Some(name)
            },
        ),
        RoomCommandModel::Send { room_id, body } => ChatCommandModel::Send { room_id, body },
        RoomCommandModel::Invite { room_id, user } => ChatCommandModel::Invite { room_id, user },
        RoomCommandModel::AcceptInvitation { room_id } => ChatCommandModel::AcceptInvitation {
            room_id,
        },
    }
}

/// What one event does to the chat page. The page offers the event to at
/// most one active child: the search shortcut is intercepted first; a key
/// with control held, or any key while the panel shows an active child
/// (an open popup or discussion), goes to the panel, whose action request
/// is lifted by [`spec_lift_command`]; only otherwise does the menu react,
/// and its submit opens the selected room in the panel.
pub open spec fn spec_chat_step(m: ChatPageModel, event: Event, rooms: Seq<RoomModel>) -> (
    ChatPageModel,
    Option<ChatCommandModel>,
) {
    match spec_key_press(event) {
        Option::None => (m, Option::None),
        Some(k) => if k.ctrl && k.code == KeyCode::Char('k') {
            (
                ChatPageModel {
                    current_room: spec_update_panel(m.current_room, UpdatePanelModel::Search, rooms),
                    ..m
                },
                Option::None,
            )
        } else if k.ctrl || crate::current_room::spec_child_consumes(m.current_room.child) {
            let (panel2, cmd) = spec_room_step(m.current_room, event, rooms);
            (
                ChatPageModel { current_room: panel2, ..m },
                match cmd {
                    Some(c) => Some(spec_lift_command(c)),
                    Option::None => Option::None,
                },
            )
        } else {
            let (menu2, pick) = spec_menu_step(m.menu, event, rooms.len() as int);
            match pick {
                Some(index) => if 0 <= index < rooms.len() {
                    (
                        ChatPageModel {
                            menu: menu2,
                            current_room: spec_select(m.current_room, rooms[index]),
                        },
                        Option::None,
                    )
                } else {
                    (ChatPageModel { menu: menu2, ..m }, Option::None)
                },
                Option::None => (ChatPageModel { menu: menu2, ..m }, Option::None),
            }
        },
    }
}

/// The page that renders and gives the user an interface to list the
/// rooms and communicate in them. The rooms themselves live in the
/// shared cache, which the caller passes in under its lock.
pub struct ChatPage {
    /// Panel with the currently opened room
    current_room: CurrentRoom,
    /// Menu with the list of rooms
    menu: RoomList,
}

impl View for ChatPage {
    type V = ChatPageModel;

    closed spec fn view(&self) -> ChatPageModel {
        ChatPageModel { current_room: self.current_room@, menu: self.menu@ }
    }
}

impl ChatPage {
    /// Invariant: the chat panel is well formed.
    pub open spec fn wf(&self) -> bool {
        match self@.current_room.child {
            crate::current_room::CurrentRoomChildModel::Search(s, _) => {
                crate::current_room::search::spec_search_wf(s)
            },
            _ => true,
        }
    }

    /// Creates a new chat page with no room opened and the first menu
    /// entry selected. The rooms load into the shared cache in the
    /// background.
    pub fn new() -> (r: Self)
        ensures
            r@ == (ChatPageModel {
                current_room: CurrentRoomModel {
                    child: crate::current_room::CurrentRoomChildModel::NoRoom,
                    room_name: Seq::<char>::empty(),
                },
                menu: 0,
            }),
            r.wf(),
    {
        let r = ChatPage { current_room: CurrentRoom::default(), menu: RoomList::new() };
        proof {
            assert(r@ =~= (ChatPageModel {
                current_room: CurrentRoomModel {
                    child: crate::current_room::CurrentRoomChildModel::NoRoom,
                    room_name: Seq::<char>::empty(),
                },
                menu: 0,
            }));
        }
        r
    }

    /// The chat panel, for rendering.
    pub fn current_room(&self) -> (r: &CurrentRoom)
        ensures
            r@ == self@.current_room,
    {
        &self.current_room
    }

    /// The room-list menu, for rendering.
    pub fn menu(&self) -> (r: &RoomList)
        ensures
            r@ == self@.menu,
    {
        &self.menu
    }

    /// Offers one event to the page and returns the remote action it asks
    /// for, as [`spec_chat_step`] says.
    pub fn on_event(&mut self, event: Event, cache: &RoomCache) -> (r: Option<ChatCommand>)
        requires
            cache.wf(),
            old(self).wf(),
        ensures
            final(self)@ == spec_chat_step(old(self)@, event, cache@).0,
            r is Some <==> spec_chat_step(old(self)@, event, cache@).1 is Some,
            r is Some ==> r->0@ == spec_chat_step(old(self)@, event, cache@).1->0,
            final(self).wf(),
    {
        let key_event = match event.as_key_press_event() {
            Some(k) => k,
            None => {
                return None;
            },
        };
        if key_event.ctrl && matches!(key_event.code, KeyCode::Char('k')) {
            self.current_room.update(UpdateCurrentRoomPanel::Search, cache);
            proof {
                assert(self@ =~= spec_chat_step(old(self)@, event, cache@).0);
            }
            return None;
        }
        if !key_event.ctrl && !self.current_room.child().consumes_events() {
            if let Some(index) = self.menu.on_event(event, cache.len()) {
                if index < cache.len() {
                    let room = cache.get(index);
                    self.current_room.select_new_room(room);
                }
            }
            proof {
                assert(self@ =~= spec_chat_step(old(self)@, event, cache@).0);
            }
            return None;
        }
        let command = self.current_room.on_event(event, cache);
        match command {
            Some(RoomCommand::Create(action)) => {
                let name = action.0;
                if name.as_str().is_empty() {
                    Some(ChatCommand::CreateRoom(None))
                } else {
                    Some(ChatCommand::CreateRoom(Some(name)))
                }
            },
            Some(RoomCommand::Send { room_id, body }) => Some(ChatCommand::Send { room_id, body }),
            Some(RoomCommand::Invite { room_id, user }) => Some(
                ChatCommand::Invite { room_id, user },
            ),
            Some(RoomCommand::AcceptInvitation { room_id }) => Some(
                ChatCommand::AcceptInvitation { room_id },
            ),
            None => None,
        }
    }

    /// Pushes an update into the chat panel.
    pub fn update(&mut self, response: UpdateCurrentRoomPanel, cache: &RoomCache)
        requires
            cache.wf(),
            old(self).wf(),
        ensures
            final(self)@ == (ChatPageModel {
                current_room: spec_update_panel(old(self)@.current_room, response@, cache@),
                ..old(self)@
            }),
            final(self).wf(),
    {
        self.current_room.update(response, cache);
    }

    /// Records the outcome of an accepted invitation on the chat panel.
    pub fn on_accept_result(
        &mut self,
        cache: &mut RoomCache,
        room_id: String,
        result: Result<DisplayRoom, String>,
    )
        requires
            old(cache).wf(),
        ensures
            final(cache).wf(),
            final(self)@.menu == old(self)@.menu,
            result is Err ==> final(cache)@ == old(cache)@ && final(self)@.current_room == (
            CurrentRoomModel {
                child: crate::current_room::CurrentRoomChildModel::Error(
                    result->Err_0@,
                    Some(room_id@),
                ),
                room_name: old(self)@.current_room.room_name,
            }),
            result is Ok ==> ({
                let reconciled = crate::cache::spec_reconcile(old(cache)@, result->Ok_0@);
                final(cache)@ == reconciled && final(self)@.current_room == spec_select(
                    old(self)@.current_room,
                    reconciled[crate::cache::room_index(reconciled, result->Ok_0@.id)],
                )
            }),
            final(self).wf(),
    {
        self.current_room.on_accept_result(cache, room_id, result);
    }

    /// Records the error of a failed invitation on the chat panel.
    pub fn on_invite_error(&mut self, error: String)
        ensures
            final(self)@ == (ChatPageModel {
                current_room: (match old(self)@.current_room.child {
                    crate::current_room::CurrentRoomChildModel::Invite(im) => CurrentRoomModel {
                        child: crate::current_room::CurrentRoomChildModel::Invite(
                            crate::current_room::invite_member::InviteMemberModel {
                                error: Some(error@),
                                ..im
                            },
                        ),
                        ..old(self)@.current_room
                    },
                    _ => old(self)@.current_room,
                }),
                ..old(self)@
            }),
    {
        self.current_room.on_invite_error(error);
    }

    /// Records the error of a failed send on the chat panel: it is shown
    /// inline on the open discussion, whose prompt stays editable for a
    /// retry.
    pub fn on_send_error(&mut self, error: String)
        ensures
            final(self)@ == (ChatPageModel {
                current_room: (match old(self)@.current_room.child {
                    crate::current_room::CurrentRoomChildModel::Discussion(d) => CurrentRoomModel {
                        child: crate::current_room::CurrentRoomChildModel::Discussion(
                            crate::current_room::discussion::DiscussionModel {
                                error: Some(error@),
                                ..d
                            },
                        ),
                        ..old(self)@.current_room
                    },
                    _ => old(self)@.current_room,
                }),
                ..old(self)@
            }),
            old(self).wf() ==> final(self).wf(),
    {
        self.current_room.on_send_error(error);
    }
}

} // verus!
