//! Calls about users and sessions.

use crate::api::{ApiCall, ChangePassword, NameOrId, RegisterParams, SaveUserSettings, Sensitive};
use crate::routes::user::RegisterForm;
use vstd::prelude::*;

verus! {

/// The call that fetches one user, by name or by number.
pub fn get_person(name_or_id: NameOrId, auth: Option<Sensitive>) -> (call: ApiCall)
    ensures
        call == match name_or_id {
            NameOrId::Name(name) => ApiCall::GetPersonDetails {
                username: Some(name),
                person_id: None,
                auth,
            },
            NameOrId::Id(id) => ApiCall::GetPersonDetails {
                username: None,
                person_id: Some(id),
                auth,
            },
        },
{
    match name_or_id {
        NameOrId::Name(name) => ApiCall::GetPersonDetails {
            username: Some(name),
            person_id: None,
            auth,
        },
        NameOrId::Id(id) => ApiCall::GetPersonDetails { username: None, person_id: Some(id), auth },
    }
}

/// The call that opens a session.
pub fn login(username_or_email: &str, password: &str) -> (call: ApiCall)
    ensures
        call matches ApiCall::Login { username_or_email: name, password: secret }
            && name@ == username_or_email@ && secret@ == password@,
{
    ApiCall::Login {
        username_or_email: Sensitive::new(username_or_email.to_owned()),
        password: Sensitive::new(password.to_owned()),
    }
}

/// The call that fetches a captcha for the registration form.
pub fn get_captcha() -> (call: ApiCall)
    ensures
        call == ApiCall::GetCaptcha,
{
    ApiCall::GetCaptcha
}

/// Whether `params` hold what `form` holds: each field under its name, the
/// answer to the instance's question as `answer`; whether a new captcha was
/// asked for is not sent.
pub open spec fn register_params_of(form: RegisterForm, params: RegisterParams) -> bool {
    &&& params.username == form.username
    &&& params.password@ == form.password@
    &&& params.password_verify@ == form.password_verify@
    &&& params.show_nsfw == form.show_nsfw
    &&& match form.email {
        Some(email) => params.email matches Some(secret) && secret@ == email@,
        None => params.email is None,
    }
    &&& params.captcha_uuid == form.captcha_uuid
    &&& params.captcha_answer == form.captcha_answer
    &&& params.honeypot == form.honeypot
    &&& params.answer == form.application_answer
}

/// The call that registers a new user with what the form holds.
pub fn register(form: RegisterForm) -> (call: ApiCall)
    ensures
        call matches ApiCall::Register(params) && register_params_of(form, params),
{
    let email = match form.email {
        Some(email) => Some(Sensitive::new(email)),
        None => None,
    };
    ApiCall::Register(
        RegisterParams {
            username: form.username,
            password: Sensitive::new(form.password),
            password_verify: Sensitive::new(form.password_verify),
            show_nsfw: form.show_nsfw,
            email,
            captcha_uuid: form.captcha_uuid,
            captcha_answer: form.captcha_answer,
            honeypot: form.honeypot,
            answer: form.application_answer,
        },
    )
}

/// The call that lists the mentions that the visitor has not read.
pub fn list_mentions(auth: Sensitive) -> (call: ApiCall)
    ensures
        call == (ApiCall::ListMentions { unread_only: true, auth }),
{
    ApiCall::ListMentions { unread_only: true, auth }
}

/// The call that lists the replies that the visitor has not read.
pub fn list_replies(auth: Sensitive) -> (call: ApiCall)
    ensures
        call == (ApiCall::ListReplies { unread_only: true, auth }),
{
    ApiCall::ListReplies { unread_only: true, auth }
}

/// The call that marks every mention and reply as read.
pub fn mark_all_as_read(auth: Sensitive) -> (call: ApiCall)
    ensures
        call == (ApiCall::MarkAllAsRead { auth }),
{
    ApiCall::MarkAllAsRead { auth }
}

/// The call that changes the visitor's password.
pub fn change_password(params: ChangePassword) -> (call: ApiCall)
    ensures
        call == ApiCall::ChangePassword(params),
{
    ApiCall::ChangePassword(params)
}

/// The call that saves the visitor's settings.
pub fn save_settings(params: SaveUserSettings) -> (call: ApiCall)
    ensures
        call == ApiCall::SaveUserSettings(params),
{
    ApiCall::SaveUserSettings(params)
}

} // verus!
