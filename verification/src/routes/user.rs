//! Logging in, registering, and the visitor's profile.

use crate::api::user::{login, register, register_params_of};
use crate::api::{ApiCall, ChangePassword, SaveUserSettings, Sensitive};
use crate::error::ApiError;
use crate::model::Person;
use crate::routes::{build_jwt_cookie, JwtCookie};
use crate::text::{concat, is_blank};
use crate::utils::empty_to_opt;
use vstd::prelude::*;

verus! {

/// What the login form holds.
pub struct LoginForm {
    pub username: String,
    pub password: String,
}

/// What the registration form holds.
pub struct RegisterForm {
    pub username: String,
    pub password: String,
    pub password_verify: String,
    pub show_nsfw: bool,
    pub email: Option<String>,
    pub captcha_uuid: Option<String>,
    pub captcha_answer: Option<String>,
    pub honeypot: Option<String>,
    pub application_answer: Option<String>,
    pub refresh_captcha: Option<String>,
}

/// The title of a page of the site named `site_name`: `heading`, a dash,
/// and the site's name.
pub open spec fn titled(heading: Seq<char>, site_name: Seq<char>) -> Seq<char> {
    heading + " - "@ + site_name
}

fn title(heading: &str, site_name: &str) -> (title: String)
    ensures
        title@ == titled(heading@, site_name@),
{
    let start = concat(heading, " - ");
    concat(start.as_str(), site_name)
}

/// The title of the login page.
pub fn login_title(site_name: &str) -> (title: String)
    ensures
        title@ == titled("Login"@, site_name@),
{
    title("Login", site_name)
}

/// The title of the registration page.
pub fn register_title(site_name: &str) -> (title: String)
    ensures
        title@ == titled("Register"@, site_name@),
{
    title("Register", site_name)
}

/// The call that logs in with what the form holds.
pub fn do_login(form: &LoginForm) -> (call: ApiCall)
    ensures
        call matches ApiCall::Login { username_or_email, password } && username_or_email@
            == form.username@ && password@ == form.password@,
{
    login(form.username.as_str(), form.password.as_str())
}

/// The cookie that is set after the backend opened the session `jwt`; the
/// visitor is then sent to the front page. The backend's answer holds a session.
pub fn logged_in(jwt: Option<Sensitive>) -> (cookie: JwtCookie)
    requires
        jwt is Some,
    ensures
        cookie.name@ == "jwt"@,
        cookie.value == jwt->0,
        cookie.http_only,
        cookie.secure,
        cookie.same_site == crate::routes::SameSite::Strict,
{
    build_jwt_cookie(jwt.unwrap())
}

/// A form field that was filled in: `value`, unless it is empty.
pub open spec fn filled_in(value: Option<String>) -> Option<String> {
    match value {
        Some(text) => if text@.len() == 0 {
            None
        } else {
            Some(text)
        },
        None => None,
    }
}

/// Turns a field that was sent empty into one that was not sent.
pub fn non_empty(value: Option<String>) -> (field: Option<String>)
    ensures
        field == filled_in(value),
{
    match value {
        Some(text) => {
            if text.as_str().is_empty() {
                None
            } else {
                Some(text)
            }
        },
        None => None,
    }
}

/// What is done with a registration form.
pub enum RegisterStep {
    /// Show the registration page again, with a new captcha.
    ReloadCaptcha,
    /// Make this call.
    Register(ApiCall),
}

/// The form as it is sent on: the captcha's answer, the honeypot, the
/// email address and the answer to the instance's question count as not
/// given where they are empty.
pub open spec fn normalized(form: RegisterForm) -> RegisterForm {
    RegisterForm {
        username: form.username,
        password: form.password,
        password_verify: form.password_verify,
        show_nsfw: form.show_nsfw,
        email: filled_in(form.email),
        captcha_uuid: form.captcha_uuid,
        captcha_answer: filled_in(form.captcha_answer),
        honeypot: filled_in(form.honeypot),
        application_answer: filled_in(form.application_answer),
        refresh_captcha: form.refresh_captcha,
    }
}

/// Decides what is done with a registration form: where the visitor asked
/// for a new captcha the page is shown again; else the form is sent on.
pub fn do_register(form: RegisterForm) -> (step: RegisterStep)
    ensures
        form.refresh_captcha is Some ==> step is ReloadCaptcha,
        form.refresh_captcha is None ==> (step matches RegisterStep::Register(
            ApiCall::Register(params),
        ) && register_params_of(normalized(form), params)),
{
    if form.refresh_captcha.is_some() {
        return RegisterStep::ReloadCaptcha;
    }
    let sent = RegisterForm {
        username: form.username,
        password: form.password,
        password_verify: form.password_verify,
        show_nsfw: form.show_nsfw,
        email: non_empty(form.email),
        captcha_uuid: form.captcha_uuid,
        captcha_answer: non_empty(form.captcha_answer),
        honeypot: non_empty(form.honeypot),
        application_answer: non_empty(form.application_answer),
        refresh_captcha: form.refresh_captcha,
    };
    RegisterStep::Register(register(sent))
}

/// What a visitor is shown after registering.
pub enum Registered {
    /// The visitor is logged in: set the cookie and go to the front page.
    LoggedIn(JwtCookie),
    /// The visitor has to wait: show the message with this key.
    Message(String),
}

/// Decides what a visitor is shown after registering: with a session they
/// are logged in; without one they are told to confirm their email address
/// if a mail was sent, and else to wait for an administrator.
pub fn registered(jwt: Option<Sensitive>, verify_email_sent: bool) -> (shown: Registered)
    ensures
        match jwt {
            Some(token) => shown matches Registered::LoggedIn(cookie) && cookie.value == token
                && cookie.name@ == "jwt"@ && cookie.http_only && cookie.secure
                && cookie.same_site == crate::routes::SameSite::Strict,
            None => shown matches Registered::Message(key) && key@ == if verify_email_sent {
                "registration_confirm_email"@
            } else {
                "registration_admin_approval"@
            },
        },
{
    match jwt {
        Some(token) => Registered::LoggedIn(build_jwt_cookie(token)),
        None => {
            if verify_email_sent {
                Registered::Message("registration_confirm_email".to_owned())
            } else {
                Registered::Message("registration_admin_approval".to_owned())
            }
        },
    }
}

/// The name under which a user is shown.
pub open spec fn shown_name(person: Person) -> Seq<char> {
    match person.display_name {
        Some(display_name) => display_name@,
        None => person.name@,
    }
}

/// The title of a user's profile page.
pub fn view_profile(person: &Person) -> (title: String)
    ensures
        title@ == titled("Viewing profile"@, shown_name(*person)),
{
    match &person.display_name {
        Some(display_name) => title("Viewing profile", display_name.as_str()),
        None => title("Viewing profile", person.name.as_str()),
    }
}

/// What the profile form holds, but for the picture that may come with it.
pub struct EditProfileForm {
    pub displayname: String,
    pub language: String,
    /// The signature.
    pub message: String,
    pub avatar_delete: bool,
    pub email: String,
    pub new_password: String,
    pub confirm_password: String,
    pub cur_password: String,
}

/// A field of the profile form as it is saved: not at all where it holds
/// nothing but white space.
pub open spec fn saved(value: String) -> Option<String> {
    if is_blank(value@) {
        None
    } else {
        Some(value)
    }
}

/// Whether `params` are the settings that `form` asks for: each text field
/// that is given; an empty picture where the picture is to be deleted; the
/// address `uploaded` where a picture was uploaded, which wins over deletion.
pub open spec fn settings_of(
    form: EditProfileForm,
    uploaded: Option<String>,
    auth: Sensitive,
    params: SaveUserSettings,
) -> bool {
    &&& params.display_name == saved(form.displayname)
    &&& match saved(form.email) {
        Some(email) => params.email matches Some(secret) && secret@ == email@,
        None => params.email is None,
    }
    &&& params.bio == saved(form.message)
    &&& params.interface_language == saved(form.language)
    &&& params.auth == auth
    &&& match uploaded {
        Some(url) => params.avatar == Some(url),
        None => if form.avatar_delete {
            params.avatar matches Some(empty) && empty@.len() == 0
        } else {
            params.avatar is None
        },
    }
}

/// Decides whether a picture came with the profile form: one did where
/// the uploaded file is not empty.
pub fn has_upload(file_len: u64) -> (uploaded: bool)
    ensures
        uploaded == (file_len != 0),
{
    file_len != 0
}

/// The settings that are saved for a profile form. `uploaded` is the
/// address of the picture that came with the form, if one did.
pub fn edit_settings(form: &EditProfileForm, uploaded: Option<String>, auth: Sensitive) -> (params:
    SaveUserSettings)
    ensures
        settings_of(*form, uploaded, auth, params),
{
    let email = match empty_to_opt(form.email.clone()) {
        Some(email) => Some(Sensitive::new(email)),
        None => None,
    };
    let avatar = match uploaded {
        Some(url) => Some(url),
        None => {
            if form.avatar_delete {
                Some(String::new())
            } else {
                None
            }
        },
    };
    SaveUserSettings {
        display_name: empty_to_opt(form.displayname.clone()),
        email,
        bio: empty_to_opt(form.message.clone()),
        interface_language: empty_to_opt(form.language.clone()),
        avatar,
        auth,
    }
}

/// Whether the profile form asks for a new password: it does where the new
/// password, its repetition and the current password are all given.
pub open spec fn asks_for_password_change(form: EditProfileForm) -> bool {
    form.new_password@.len() > 0 && form.confirm_password@.len() > 0 && form.cur_password@.len()
        > 0
}

/// The change of password that a profile form asks for, if it asks for one.
pub fn password_change(form: &EditProfileForm, auth: Sensitive) -> (change: Option<ChangePassword>)
    ensures
        asks_for_password_change(*form) <==> change is Some,
        change matches Some(params) ==> params.new_password@ == form.new_password@
            && params.new_password_verify@ == form.confirm_password@ && params.old_password@
            == form.cur_password@ && params.auth == auth,
{
    if !form.new_password.as_str().is_empty() && !form.confirm_password.as_str().is_empty()
        && !form.cur_password.as_str().is_empty() {
        Some(
            ChangePassword {
                new_password: Sensitive::new(form.new_password.clone()),
                new_password_verify: Sensitive::new(form.confirm_password.clone()),
                old_password: Sensitive::new(form.cur_password.clone()),
                auth,
            },
        )
    } else {
        None
    }
}

/// How far the saving of a profile form has come.
pub enum EditProfileState {
    /// Nothing has been done yet.
    Start,
    /// The picture that came with the form is being uploaded.
    Uploading { form: EditProfileForm, auth: Sensitive },
    /// The settings are being saved.
    Saving { form: EditProfileForm, auth: Sensitive },
    /// The password is being changed.
    ChangingPassword,
    /// The form is dealt with.
    Finished,
}

/// What happened since the last step.
pub enum EditProfileEvent {
    /// The visitor, whose session is `auth`, sent the form; the file that came
    /// with it holds `file_len` bytes.
    Begin { form: EditProfileForm, file_len: u64, auth: Sensitive },
    /// The upload ended, with the address of the picture.
    Uploaded(Result<String, ApiError>),
    /// The backend answered the call that saves the settings.
    Saved(Result<(), ApiError>),
    /// The backend answered the call that changes the password.
    PasswordChanged(Result<(), ApiError>),
}

/// What is to be done next.
pub enum EditProfileAction {
    /// Upload the picture that came with the form.
    Upload,
    /// Make this call.
    Call(ApiCall),
    /// Tell the visitor that the settings are updated.
    Done,
    /// The form could not be dealt with.
    Fail(ApiError),
}

/// Whether `action` is the call that saves the settings that `form` asks
/// for, and `next` waits for its answer.
pub open spec fn saves_settings(
    form: EditProfileForm,
    uploaded: Option<String>,
    auth: Sensitive,
    next: EditProfileState,
    action: EditProfileAction,
) -> bool {
    &&& next == (EditProfileState::Saving { form, auth })
    &&& action matches EditProfileAction::Call(ApiCall::SaveUserSettings(params))
    &&& settings_of(form, uploaded, auth, params)
}

/// Whether `next` and `action` are the step that follows `event` in `state`.
///
/// A picture that came with the form is uploaded first. Then the settings are
/// saved, and then the password is changed, if the form asks for that. A
/// failure at any point ends the work on the form.
pub open spec fn edit_profile_step(
    state: EditProfileState,
    event: EditProfileEvent,
    next: EditProfileState,
    action: EditProfileAction,
) -> bool {
    match (state, event) {
        (EditProfileState::Start, EditProfileEvent::Begin { form, file_len, auth }) => {
            if file_len != 0 {
                next == (EditProfileState::Uploading { form, auth }) && action is Upload
            } else {
                saves_settings(form, None, auth, next, action)
            }
        },
        (EditProfileState::Uploading { form, auth }, EditProfileEvent::Uploaded(Ok(url))) => {
            saves_settings(form, Some(url), auth, next, action)
        },
        (EditProfileState::Saving { form, auth }, EditProfileEvent::Saved(Ok(_))) => {
            if asks_for_password_change(form) {
                &&& next is ChangingPassword
                &&& action matches EditProfileAction::Call(ApiCall::ChangePassword(params))
                &&& params.new_password@ == form.new_password@
                &&& params.new_password_verify@ == form.confirm_password@
                &&& params.old_password@ == form.cur_password@
                &&& params.auth == auth
            } else {
                next is Finished && action is Done
            }
        },
        (EditProfileState::ChangingPassword, EditProfileEvent::PasswordChanged(Ok(_))) => {
            next is Finished && action is Done
        },
        (EditProfileState::Uploading { .. }, EditProfileEvent::Uploaded(Err(error))) => {
            next is Finished && action == EditProfileAction::Fail(error)
        },
        (EditProfileState::Saving { .. }, EditProfileEvent::Saved(Err(error))) => {
            next is Finished && action == EditProfileAction::Fail(error)
        },
        (EditProfileState::ChangingPassword, EditProfileEvent::PasswordChanged(Err(error))) => {
            next is Finished && action == EditProfileAction::Fail(error)
        },
        _ => {
            &&& next is Finished
            &&& action matches EditProfileAction::Fail(ApiError::Rejected(message))
            &&& message@ == "event does not fit the state"@
        },
    }
}

fn save(form: EditProfileForm, uploaded: Option<String>, auth: Sensitive) -> (step: (
    EditProfileState,
    EditProfileAction,
))
    ensures
        saves_settings(form, uploaded, auth, step.0, step.1),
{
    let params = edit_settings(&form, uploaded, auth.duplicate());
    (
        EditProfileState::Saving { form, auth },
        EditProfileAction::Call(ApiCall::SaveUserSettings(params)),
    )
}

/// One step of saving a profile form: takes the state and what happened,
/// and gives the next state and what to do.
pub fn do_edit_profile(state: EditProfileState, event: EditProfileEvent) -> (step: (
    EditProfileState,
    EditProfileAction,
))
    ensures
        edit_profile_step(state, event, step.0, step.1),
{
    match (state, event) {
        (EditProfileState::Start, EditProfileEvent::Begin { form, file_len, auth }) => {
            if has_upload(file_len) {
                (EditProfileState::Uploading { form, auth }, EditProfileAction::Upload)
            } else {
                save(form, None, auth)
            }
        },
        (EditProfileState::Uploading { form, auth }, EditProfileEvent::Uploaded(uploaded)) => {
            match uploaded {
                Ok(url) => save(form, Some(url), auth),
                Err(error) => (EditProfileState::Finished, EditProfileAction::Fail(error)),
            }
        },
        (EditProfileState::Saving { form, auth }, EditProfileEvent::Saved(saved)) => {
            match saved {
                Ok(_) => match password_change(&form, auth) {
                    Some(params) => (
                        EditProfileState::ChangingPassword,
                        EditProfileAction::Call(ApiCall::ChangePassword(params)),
                    ),
                    None => (EditProfileState::Finished, EditProfileAction::Done),
                },
                Err(error) => (EditProfileState::Finished, EditProfileAction::Fail(error)),
            }
        },
        (EditProfileState::ChangingPassword, EditProfileEvent::PasswordChanged(changed)) => {
            match changed {
                Ok(_) => (EditProfileState::Finished, EditProfileAction::Done),
                Err(error) => (EditProfileState::Finished, EditProfileAction::Fail(error)),
            }
        },
        _ => (
            EditProfileState::Finished,
            EditProfileAction::Fail(ApiError::Rejected("event does not fit the state".to_owned())),
        ),
    }
}

/// The languages offered on the profile form: those that the front-end is
/// translated into, then `browser` under its translated name.
pub fn edit_profile(browser_default: String) -> (languages: Vec<(String, String)>)
    ensures
        languages@.len() == 3,
        languages@[0].0@ == "en"@ && languages@[0].1@ == "English"@,
        languages@[1].0@ == "de"@ && languages@[1].1@ == "Deutsch"@,
        languages@[2].0@ == "browser"@ && languages@[2].1 == browser_default,
{
    let mut languages: Vec<(String, String)> = Vec::new();
    languages.push(("en".to_owned(), "English".to_owned()));
    languages.push(("de".to_owned(), "Deutsch".to_owned()));
    languages.push(("browser".to_owned(), browser_default));
    languages
}

} // verus!
