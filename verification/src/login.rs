//! The login page: three credential inputs, a focus cycle, and the submit
//! rule that refuses to hand out credentials while any field is empty.

use vstd::prelude::*;

use crate::credentials::{Credentials, CredentialsModel};
use crate::event::{spec_key_press, Event, KeyCode};
use crate::input::{spec_edit, Input, InputModel};

verus! {

/// The input currently focused on the login page.
#[derive(Clone, Copy, Debug, PartialEq, Eq, Structural)]
pub enum CurrentInput {
    /// The homeserver URL input is focused
    HomeServer,
    /// The password input is focused
    Password,
    /// The form was just submitted; no data can be entered
    Submitting,
    /// The username input is focused
    Username,
}

/// Mathematical view of the login page.
#[verifier::ext_equal]
pub struct LoginPageModel {
    pub current: CurrentInput,
    pub error: Seq<char>,
    pub homeserver: InputModel,
    pub password: InputModel,
    pub username: InputModel,
}

/// The inline error shown when the form is submitted with an empty field.
pub open spec fn spec_required_error() -> Seq<char> {
    "Found empty field, but all are required"@
}

/// The page with the given input focused and the two others unfocused.
pub open spec fn with_focus(
    m: LoginPageModel,
    current: CurrentInput,
    homeserver: bool,
    username: bool,
    password: bool,
) -> LoginPageModel {
    LoginPageModel {
        current,
        homeserver: InputModel { is_active: homeserver, ..m.homeserver },
        username: InputModel { is_active: username, ..m.username },
        password: InputModel { is_active: password, ..m.password },
        ..m
    }
}

/// Focus moved to the next field underneath the current one; no move while
/// submitting.
pub open spec fn spec_focus_down(m: LoginPageModel) -> LoginPageModel {
    match m.current {
        CurrentInput::HomeServer => with_focus(m, CurrentInput::Username, false, true, false),
        CurrentInput::Username => with_focus(m, CurrentInput::Password, false, false, true),
        CurrentInput::Password => with_focus(m, CurrentInput::HomeServer, true, false, false),
        CurrentInput::Submitting => m,
    }
}

/// Focus moved to the next field above the current one; no move while
/// submitting.
pub open spec fn spec_focus_up(m: LoginPageModel) -> LoginPageModel {
    match m.current {
        CurrentInput::HomeServer => with_focus(m, CurrentInput::Password, false, false, true),
        CurrentInput::Username => with_focus(m, CurrentInput::HomeServer, true, false, false),
        CurrentInput::Password => with_focus(m, CurrentInput::Username, false, true, false),
        CurrentInput::Submitting => m,
    }
}

/// An empty input with the given label, masked for the password field.
pub open spec fn spec_blank_input(label: Seq<char>, is_active: bool, is_hidden: bool) -> InputModel {
    InputModel {
        has_error: false,
        is_active,
        is_hidden,
        label: Some(label),
        value: Seq::<char>::empty(),
    }
}

/// The freshly opened login page: empty fields, homeserver focused.
pub open spec fn spec_default_page() -> LoginPageModel {
    LoginPageModel {
        current: CurrentInput::HomeServer,
        error: Seq::<char>::empty(),
        homeserver: spec_blank_input("Homeserver"@, true, false),
        username: spec_blank_input("Username"@, false, false),
        password: spec_blank_input("Password"@, false, true),
    }
}

/// The freshly opened login page with the given credentials filled in as
/// defaults.
pub open spec fn spec_default_page_with(c: CredentialsModel) -> LoginPageModel {
    LoginPageModel {
        homeserver: InputModel { value: c.homeserver, ..spec_default_page().homeserver },
        username: InputModel { value: c.username, ..spec_default_page().username },
        password: InputModel { value: c.password, ..spec_default_page().password },
        ..spec_default_page()
    }
}

/// The page right after a submission: fields reset, input blocked.
pub open spec fn spec_submitted_page() -> LoginPageModel {
    LoginPageModel {
        current: CurrentInput::Submitting,
        homeserver: InputModel { is_active: false, ..spec_default_page().homeserver },
        ..spec_default_page()
    }
}

/// What one event does to the login page, and the credentials handed out
/// when it was a complete submission.
pub open spec fn spec_login_step(m: LoginPageModel, event: Event) -> (
    LoginPageModel,
    Option<CredentialsModel>,
) {
    match spec_key_press(event) {
        Option::None => (m, Option::None),
        Some(k) => match k.code {
            KeyCode::Tab => (spec_focus_down(m), Option::None),
            KeyCode::BackTab => (spec_focus_up(m), Option::None),
            KeyCode::Enter => if m.homeserver.value.len() == 0 || m.username.value.len() == 0
                || m.password.value.len() == 0 {
                (LoginPageModel { error: spec_required_error(), ..m }, Option::None)
            } else {
                (
                    spec_submitted_page(),
                    Some(
                        CredentialsModel {
                            homeserver: m.homeserver.value,
                            username: m.username.value,
                            password: m.password.value,
                        },
                    ),
                )
            },
            _ => (
                match m.current {
                    CurrentInput::HomeServer => LoginPageModel {
                        homeserver: InputModel {
                            value: spec_edit(m.homeserver.value, event),
                            ..m.homeserver
                        },
                        ..m
                    },
                    CurrentInput::Username => LoginPageModel {
                        username: InputModel {
                            value: spec_edit(m.username.value, event),
                            ..m.username
                        },
                        ..m
                    },
                    CurrentInput::Password => LoginPageModel {
                        password: InputModel {
                            value: spec_edit(m.password.value, event),
                            ..m.password
                        },
                        ..m
                    },
                    CurrentInput::Submitting => m,
                },
                Option::None,
            ),
        },
    }
}

/// The state handler for the login page.
///
/// Key presses edit the focused input; a tab cycles the focus; a submit
/// with every field filled hands the credentials out and blocks the form,
/// while a submit with any empty field only shows an inline error and
/// leaves the focus where it was — no authentication is requested then.
pub struct LoginPage {
    /// Input currently being edited
    current: CurrentInput,
    /// Login error currently displayed
    error: String,
    /// Input holding the homeserver URL
    homeserver: Input,
    /// Input holding the password
    password: Input,
    /// Input holding the username
    username: Input,
}

impl View for LoginPage {
    type V = LoginPageModel;

    closed spec fn view(&self) -> LoginPageModel {
        LoginPageModel {
            current: self.current,
            error: self.error@,
            homeserver: self.homeserver@,
            password: self.password@,
            username: self.username@,
        }
    }
}

impl Default for LoginPage {
    /// Opens a blank login page with the homeserver input focused.
    fn default() -> (r: Self)
        ensures
            r@ == spec_default_page(),
    {
        let r = LoginPage {
            current: CurrentInput::HomeServer,
            error: String::new(),
            homeserver: Input::new().with_label("Homeserver".to_owned()).with_active(),
            username: Input::new().with_label("Username".to_owned()),
            password: Input::new().with_label("Password".to_owned()).with_hidden(),
        };
        proof {
            assert(r@ =~= spec_default_page());
        }
        r
    }
}

impl LoginPage {
    /// Creates a new login page with the given credentials as defaults.
    /// They will be lost after a login attempt.
    pub fn new(credentials: Credentials<String>) -> (r: Self)
        ensures
            r@ == spec_default_page_with(credentials@),
    {
        let mut this = Self::default();
        this.homeserver.set_value(credentials.homeserver);
        this.username.set_value(credentials.username);
        this.password.set_value(credentials.password);
        proof {
            assert(this@ =~= spec_default_page_with(credentials@));
        }
        this
    }

    /// Creates a new login page after a failed login attempt; the given
    /// message appears as the inline error.
    pub fn new_with_login_err(error: String) -> (r: Self)
        ensures
            r@ == (LoginPageModel { error: error@, ..spec_default_page() }),
    {
        let mut this = Self::default();
        this.error = error;
        proof {
            assert(this@ =~= (LoginPageModel { error: error@, ..spec_default_page() }));
        }
        this
    }

    /// Focuses the homeserver input.
    pub fn focus_homeserver(&mut self)
        ensures
            final(self)@ == with_focus(old(self)@, CurrentInput::HomeServer, true, false, false),
    {
        self.homeserver.set_active(true);
        self.username.set_active(false);
        self.password.set_active(false);
        self.current = CurrentInput::HomeServer;
        proof {
            assert(self@ =~= with_focus(old(self)@, CurrentInput::HomeServer, true, false, false));
        }
    }

    /// Focuses the password input.
    pub fn focus_password(&mut self)
        ensures
            final(self)@ == with_focus(old(self)@, CurrentInput::Password, false, false, true),
    {
        self.homeserver.set_active(false);
        self.username.set_active(false);
        self.password.set_active(true);
        self.current = CurrentInput::Password;
        proof {
            assert(self@ =~= with_focus(old(self)@, CurrentInput::Password, false, false, true));
        }
    }

    /// Focuses the username input.
    pub fn focus_username(&mut self)
        ensures
            final(self)@ == with_focus(old(self)@, CurrentInput::Username, false, true, false),
    {
        self.homeserver.set_active(false);
        self.username.set_active(true);
        self.password.set_active(false);
        self.current = CurrentInput::Username;
        proof {
            assert(self@ =~= with_focus(old(self)@, CurrentInput::Username, false, true, false));
        }
    }

    /// Focuses the next field underneath the current one.
    pub fn focus_field_down(&mut self)
        ensures
            final(self)@ == spec_focus_down(old(self)@),
    {
        match self.current {
            CurrentInput::HomeServer => self.focus_username(),
            CurrentInput::Username => self.focus_password(),
            CurrentInput::Password => self.focus_homeserver(),
            CurrentInput::Submitting => {},
        }
    }

    /// Focuses the next field above the current one.
    pub fn focus_field_up(&mut self)
        ensures
            final(self)@ == spec_focus_up(old(self)@),
    {
        match self.current {
            CurrentInput::HomeServer => self.focus_password(),
            CurrentInput::Username => self.focus_homeserver(),
            CurrentInput::Password => self.focus_username(),
            CurrentInput::Submitting => {},
        }
    }

    /// Blocks the inputs after a sign-in request was sent: no data should
    /// be entered while it is in flight.
    pub fn freeze(&mut self)
        ensures
            final(self)@ == (LoginPageModel {
                current: CurrentInput::Submitting,
                homeserver: InputModel { is_active: false, ..old(self)@.homeserver },
                ..old(self)@
            }),
    {
        self.current = CurrentInput::Submitting;
        self.homeserver.set_active(false);
        proof {
            assert(self@ =~= (LoginPageModel {
                current: CurrentInput::Submitting,
                homeserver: InputModel { is_active: false, ..old(self)@.homeserver },
                ..old(self)@
            }));
        }
    }

    /// Reacts to one event.
    ///
    /// A tab cycles the focus; a submit with every field filled returns the
    /// credentials to attempt a login with, resets the form and blocks it;
    /// a submit with any empty field returns nothing — so no authentication
    /// is attempted — and only sets the inline error, leaving every input
    /// and the focus as they were; any other key press edits the focused
    /// input.
    pub fn on_event(&mut self, event: Event) -> (r: Option<Credentials<String>>)
        ensures
            final(self)@ == spec_login_step(old(self)@, event).0,
            r is Some <==> spec_login_step(old(self)@, event).1 is Some,
            r is Some ==> r->0@ == spec_login_step(old(self)@, event).1->0,
    {
        let key_event = match event.as_key_press_event() {
            Some(k) => k,
            None => {
                return None;
            },
        };
        match key_event.code {
            KeyCode::Tab => self.focus_field_down(),
            KeyCode::BackTab => self.focus_field_up(),
            KeyCode::Enter => {
                if self.homeserver.is_empty() || self.username.is_empty()
                    || self.password.is_empty() {
                    self.error = "Found empty field, but all are required".to_owned();
                    proof {
                        assert(self@ =~= (LoginPageModel {
                            error: spec_required_error(),
                            ..old(self)@
                        }));
                    }
                    return None;
                }
                let credentials = Credentials {
                    homeserver: self.homeserver.take_value(),
                    username: self.username.take_value(),
                    password: self.password.take_value(),
                };
                let mut blank = Self::default();
                core::mem::swap(self, &mut blank);
                self.freeze();
                proof {
                    assert(self@ =~= spec_submitted_page());
                }
                return Some(credentials);
            },
            _ => {
                match self.current {
                    CurrentInput::HomeServer => self.homeserver.on_event(event),
                    CurrentInput::Username => self.username.on_event(event),
                    CurrentInput::Password => self.password.on_event(event),
                    CurrentInput::Submitting => {
                        return None;
                    },
                }
                proof {
                    assert(self@ =~= (match old(self)@.current {
                        CurrentInput::HomeServer => LoginPageModel {
                            homeserver: InputModel {
                                value: spec_edit(old(self)@.homeserver.value, event),
                                ..old(self)@.homeserver
                            },
                            ..old(self)@
                        },
                        CurrentInput::Username => LoginPageModel {
                            username: InputModel {
                                value: spec_edit(old(self)@.username.value, event),
                                ..old(self)@.username
                            },
                            ..old(self)@
                        },
                        CurrentInput::Password => LoginPageModel {
                            password: InputModel {
                                value: spec_edit(old(self)@.password.value, event),
                                ..old(self)@.password
                            },
                            ..old(self)@
                        },
                        CurrentInput::Submitting => old(self)@,
                    }));
                }
            },
        }
        None
    }

    /// Shows the error of a failed login attempt and lets the user edit
    /// the form again.
    pub fn update(&mut self, error: String)
        ensures
            final(self)@ == (LoginPageModel {
                error: error@,
                current: CurrentInput::HomeServer,
                ..old(self)@
            }),
    {
        self.error = error;
        self.current = CurrentInput::HomeServer;
        proof {
            assert(self@ =~= (LoginPageModel {
                error: error@,
                current: CurrentInput::HomeServer,
                ..old(self)@
            }));
        }
    }

    /// The inline error currently displayed.
    pub fn error(&self) -> (r: &str)
        ensures
            r@ == self@.error,
    {
        self.error.as_str()
    }

    /// The input currently focused.
    pub fn current(&self) -> (r: CurrentInput)
        ensures
            r == self@.current,
    {
        self.current
    }

    /// The homeserver input, for rendering.
    pub fn homeserver(&self) -> (r: &Input)
        ensures
            r@ == self@.homeserver,
    {
        &self.homeserver
    }

    /// The username input, for rendering.
    pub fn username(&self) -> (r: &Input)
        ensures
            r@ == self@.username,
    {
        &self.username
    }

    /// The password input, for rendering.
    pub fn password(&self) -> (r: &Input)
        ensures
            r@ == self@.password,
    {
        &self.password
    }
}

} // verus!
