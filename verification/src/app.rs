//! The application root: which screen is shown — the login page or the
//! chat page — and how each event flows to it. Moving from one screen to
//! the other happens when the caller's authentication attempt settles,
//! so the constructors here cover both outcomes.

use vstd::prelude::*;

use crate::cache::RoomCache;
use crate::chat::{spec_chat_step, ChatCommand, ChatCommandModel, ChatPage, ChatPageModel};
use crate::credentials::{Credentials, CredentialsModel};
use crate::current_room::{CurrentRoomChildModel, CurrentRoomModel};
use crate::event::Event;
use crate::login::{spec_login_step, LoginPage, LoginPageModel};

verus! {

/// Mathematical view of the screen currently displayed.
#[verifier::ext_equal]
pub enum ScreenModel {
    /// The page prompting for credentials
    Login(LoginPageModel),
    /// The main page to chat
    Chat(ChatPageModel),
}

/// Screen currently displayed on the user interface.
pub enum Screen {
    /// Page to prompt for credentials
    Login(LoginPage),
    /// Main page to chat
    Chat(ChatPage),
}

impl View for Screen {
    type V = ScreenModel;

    open spec fn view(&self) -> ScreenModel {
        match self {
            Screen::Login(page) => ScreenModel::Login(page@),
            Screen::Chat(page) => ScreenModel::Chat(page@),
        }
    }
}

/// Informs the caller that a login should be attempted.
pub enum ScreenUpdate {
    /// Attempt to log into the server with these credentials
    AttemptLogIn(Credentials<String>),
}

/// A remote action the application asks its caller to perform.
pub enum AppCommandModel {
    /// Attempt to log in with these credentials
    LogIn(CredentialsModel),
    /// An action of the chat page
    Chat(ChatCommandModel),
}

/// A remote action the application asks its caller to perform: an
/// authentication attempt, or an action of the chat page.
pub enum AppCommand {
    /// Attempt to log in with these credentials
    LogIn(Credentials<String>),
    /// An action of the chat page
    Chat(ChatCommand),
}

impl View for AppCommand {
    type V = AppCommandModel;

    open spec fn view(&self) -> AppCommandModel {
        match self {
            AppCommand::LogIn(credentials) => AppCommandModel::LogIn(credentials@),
            AppCommand::Chat(command) => AppCommandModel::Chat(command@),
        }
    }
}

/// What one event does to the application: it goes to whichever screen
/// is shown, and that screen's request — credentials to try, or a chat
/// action — is handed to the caller.
pub open spec fn spec_app_step(m: ScreenModel, event: Event, rooms: Seq<crate::room::RoomModel>) -> (
    ScreenModel,
    Option<AppCommandModel>,
) {
    match m {
        ScreenModel::Login(page) => {
            let (page2, credentials) = spec_login_step(page, event);
            (
                ScreenModel::Login(page2),
                match credentials {
                    Some(c) => Some(AppCommandModel::LogIn(c)),
                    Option::None => Option::None,
                },
            )
        },
        ScreenModel::Chat(page) => {
            let (page2, command) = spec_chat_step(page, event, rooms);
            (
                ScreenModel::Chat(page2),
                match command {
                    Some(c) => Some(AppCommandModel::Chat(c)),
                    Option::None => Option::None,
                },
            )
        },
    }
}

/// The application: the screen shown and the dispatch into it.
///
/// The caller owns the session and the room cache; this type decides,
/// from events and reported outcomes, what is on the screen.
pub struct App {
    /// Current screen rendered by the application
    screen: Screen,
}

impl View for App {
    type V = ScreenModel;

    closed spec fn view(&self) -> ScreenModel {
        self.screen@
    }
}

impl App {
    /// Invariant: the chat page, when shown, is well formed.
    pub open spec fn wf(&self) -> bool {
        match self@ {
            ScreenModel::Chat(page) => ({
                match page.current_room.child {
                    CurrentRoomChildModel::Search(s, _) => crate::current_room::search::spec_search_wf(
                        s,
                    ),
                    _ => true,
                }
            }),
            ScreenModel::Login(_) => true,
        }
    }

    /// Opens the application on the login page, with the given partial
    /// credentials as defaults.
    pub fn new_login(credentials: Credentials<String>) -> (r: Self)
        ensures
            r@ == ScreenModel::Login(
                crate::login::spec_default_page_with(credentials@),
            ),
            r.wf(),
    {
        App { screen: Screen::Login(LoginPage::new(credentials)) }
    }

    /// Reopens the login page after a failed login attempt, with the
    /// error message shown inline.
    pub fn new_with_login_err(err: String) -> (r: Self)
        ensures
            r@ == ScreenModel::Login(
                LoginPageModel { error: err@, ..crate::login::spec_default_page() },
            ),
            r.wf(),
    {
        App { screen: Screen::Login(LoginPage::new_with_login_err(err)) }
    }

    /// Opens the chat page, after the caller's login succeeded. The
    /// caller starts the background synchronisation into the shared room
    /// cache.
    pub fn new_with_user() -> (r: Self)
        ensures
            r@ == ScreenModel::Chat(
                ChatPageModel {
                    current_room: CurrentRoomModel {
                        child: CurrentRoomChildModel::NoRoom,
                        room_name: Seq::<char>::empty(),
                    },
                    menu: 0,
                },
            ),
            r.wf(),
    {
        App { screen: Screen::Chat(ChatPage::new()) }
    }

    /// The screen currently shown, for rendering.
    pub fn screen(&self) -> (r: &Screen)
        ensures
            r@ == self@,
    {
        &self.screen
    }

    /// Offers one event to the shown screen, as [`spec_app_step`] says,
    /// and returns the remote action it asks for.
    pub fn on_event(&mut self, event: Event, cache: &RoomCache) -> (r: Option<AppCommand>)
        requires
            cache.wf(),
            old(self).wf(),
        ensures
            final(self)@ == spec_app_step(old(self)@, event, cache@).0,
            r is Some <==> spec_app_step(old(self)@, event, cache@).1 is Some,
            r is Some ==> r->0@ == spec_app_step(old(self)@, event, cache@).1->0,
            final(self).wf(),
    {
        match &mut self.screen {
            Screen::Login(login_page) => {
                let credentials = login_page.on_event(event);
                match credentials {
                    Some(c) => Some(AppCommand::LogIn(c)),
                    None => None,
                }
            },
            Screen::Chat(chat_page) => {
                let command = chat_page.on_event(event, cache);
                match command {
                    Some(c) => Some(AppCommand::Chat(c)),
                    None => None,
                }
            },
        }
    }

    /// Reports the error of a failed login attempt to the login page;
    /// the chat page ignores it.
    pub fn update_login_error(&mut self, error: String)
        ensures
            final(self)@ == (match old(self)@ {
                ScreenModel::Login(page) => ScreenModel::Login(
                    LoginPageModel {
                        error: error@,
                        current: crate::login::CurrentInput::HomeServer,
                        ..page
                    },
                ),
                ScreenModel::Chat(page) => ScreenModel::Chat(page),
            }),
            old(self).wf() ==> final(self).wf(),
    {
        if let Screen::Login(login_page) = &mut self.screen {
            login_page.update(error);
        }
    }

    /// Pushes an update into the chat panel; the login page ignores it.
    pub fn update_chat(
        &mut self,
        response: crate::current_room::UpdateCurrentRoomPanel,
        cache: &RoomCache,
    )
        requires
            cache.wf(),
            old(self).wf(),
        ensures
            final(self)@ == (match old(self)@ {
                ScreenModel::Chat(page) => ScreenModel::Chat(
                    ChatPageModel {
                        current_room: crate::current_room::spec_update_panel(
                            page.current_room,
                            response@,
                            cache@,
                        ),
                        ..page
                    },
                ),
                ScreenModel::Login(page) => ScreenModel::Login(page),
            }),
            final(self).wf(),
    {
        if let Screen::Chat(chat_page) = &mut self.screen {
            chat_page.update(response, cache);
        }
    }

    /// Records the outcome of an accepted invitation on the chat panel;
    /// the login page ignores it, and the cache is then left as it was.
    pub fn on_accept_result(
        &mut self,
        cache: &mut RoomCache,
        room_id: String,
        result: Result<crate::room::DisplayRoom, String>,
    )
        requires
            old(cache).wf(),
            old(self).wf(),
        ensures
            final(cache).wf(),
            old(self)@ is Login ==> final(self)@ == old(self)@ && final(cache)@ == old(cache)@,
            old(self)@ is Chat ==> ({
                let page = old(self)@->Chat_0;
                final(self)@ is Chat && final(self)@->Chat_0.menu == page.menu && (match result {
                    Err(e) => final(cache)@ == old(cache)@ && final(self)@->Chat_0.current_room == (
                    crate::current_room::CurrentRoomModel {
                        child: CurrentRoomChildModel::Error(e@, Some(room_id@)),
                        room_name: page.current_room.room_name,
                    }),
                    Ok(fresh) => ({
                        let reconciled = crate::cache::spec_reconcile(old(cache)@, fresh@);
                        final(cache)@ == reconciled && final(self)@->Chat_0.current_room
                            == crate::current_room::spec_select(
                            page.current_room,
                            reconciled[crate::cache::room_index(reconciled, fresh@.id)],
                        )
                    }),
                })
            }),
            final(self).wf(),
    {
        if let Screen::Chat(chat_page) = &mut self.screen {
            chat_page.on_accept_result(cache, room_id, result);
        }
    }

    /// Records the error of a failed invitation on the chat panel: it is
    /// shown inline on the open invitation popup; any other content, and
    /// the login page, ignore it.
    pub fn on_invite_error(&mut self, error: String)
        ensures
            final(self)@ == (match old(self)@ {
                ScreenModel::Chat(page) => ScreenModel::Chat(
                    ChatPageModel {
                        current_room: (match page.current_room.child {
                            CurrentRoomChildModel::Invite(im) => crate::current_room::CurrentRoomModel {
                                child: CurrentRoomChildModel::Invite(
                                    crate::current_room::invite_member::InviteMemberModel {
                                        error: Some(error@),
                                        ..im
                                    },
                                ),
                                ..page.current_room
                            },
                            _ => page.current_room,
                        }),
                        ..page
                    },
                ),
                ScreenModel::Login(page) => ScreenModel::Login(page),
            }),
            old(self).wf() ==> final(self).wf(),
    {
        if let Screen::Chat(chat_page) = &mut self.screen {
            chat_page.on_invite_error(error);
        }
    }

    /// Records the error of a failed send on the chat panel: it is shown
    /// inline on the open discussion, whose prompt stays editable for a
    /// retry; any other content, and the login page, ignore it.
    pub fn on_send_error(&mut self, error: String)
        ensures
            final(self)@ == (match old(self)@ {
                ScreenModel::Chat(page) => ScreenModel::Chat(
                    ChatPageModel {
                        current_room: (match page.current_room.child {
                            CurrentRoomChildModel::Discussion(d) => crate::current_room::CurrentRoomModel {
                                child: CurrentRoomChildModel::Discussion(
                                    crate::current_room::discussion::DiscussionModel {
                                        error: Some(error@),
                                        ..d
                                    },
                                ),
                                ..page.current_room
                            },
                            _ => page.current_room,
                        }),
                        ..page
                    },
                ),
                ScreenModel::Login(page) => ScreenModel::Login(page),
            }),
            old(self).wf() ==> final(self).wf(),
    {
        if let Screen::Chat(chat_page) = &mut self.screen {
            chat_page.on_send_error(error);
        }
    }
}

} // verus!
