use vstd::prelude::*;
use crate::cors_config::get_cors_key;
use crate::data_structs::{
    ActiveSessionsPool, AdminsData, AgeStorageCheck, CheckFieldsCase, LoginRequestData,
    LoginTryMessage, Message, ObjectLogs, OwnerNotes, SESSION_DURATION, WriteDataBody,
    WriteToBaseNewCustomer,
};
use crate::model_nosql::{
    SessionView, check_before_sending, check_if_login_data_correct, fields_check, login_matches,
    sessions_view,
};

verus! {

/// The origin that the replies to the site allow.
pub const SITE_ORIGIN: &'static str = "http://ugo-vape.ru/";

/// The status with which a new customer request is stored.
pub const NEW_REQUEST_STATUS: &'static str = "БЕЗ ВНИМАНИЯ";

/// Reply texts.
pub const FORBIDDEN_TEXT: &'static str = "This request is forbidden, connection is dropped";
pub const THANKS_TEXT: &'static str = "Спасибо! Ваш запрос был отправлен! Мы ответим вам как можно скорее.";
pub const EMAIL_TEXT: &'static str = "Проверьте на правильность поле email";
pub const NAME_TEXT: &'static str = "Поле 'имя' должно содержать больше 1 символа";
pub const ABOUT_TEXT: &'static str = "Поле 'о вас' должно содержать больше 1 символа";
pub const AUTHORIZED_TEXT: &'static str = "You have already been authorized";
pub const VERIFY_AGE_TEXT: &'static str = "Please verify your age.";
pub const LOGGED_IN_TEXT: &'static str = "You're successfully logged in.";
pub const LOGIN_FAILED_TEXT: &'static str = "Failed to login! Check your login & password";
pub const NO_TOKEN: &'static str = "Nil";

/// A reply body together with the one header that the reply carries.
pub struct HeaderedReply<B> {
    pub body: B,
    pub header_name: String,
    pub header_value: String,
}

/// `r` is the reply to the site with this outcome and this text, allowed
/// for the site's origin.
pub open spec fn is_site_reply(r: HeaderedReply<Message>, condition: bool, text: Seq<char>) -> bool {
    &&& r.body.is_succeed == condition
    &&& r.body.message@ == text
    &&& r.header_name@ == "Access-Control-Allow-Origin"@
    &&& r.header_value@ == SITE_ORIGIN@
}

/// `r` is the reply to a login attempt with this text and this token,
/// allowed for any origin.
pub open spec fn is_login_reply(r: HeaderedReply<LoginTryMessage>, text: Seq<char>, token: Seq<char>) -> bool {
    &&& r.body.reply@ == text
    &&& r.body.token@ == token
    &&& r.header_name@ == "Access-Control-Allow-Origin"@
    &&& r.header_value@ == "*"@
}

/// The standard reply to the site: an outcome and a text.
pub fn reply_with_message(condition: bool, message: &str) -> (r: HeaderedReply<Message>)
    ensures
        is_site_reply(r, condition, message@),
{
    HeaderedReply {
        body: Message { is_succeed: condition, message: message.to_owned() },
        header_name: get_cors_key().to_owned(),
        header_value: SITE_ORIGIN.to_owned(),
    }
}

/// The reply to a login attempt: a text and a token.
pub fn login_try_reply_with_message(message: &str, token: &str) -> (r: HeaderedReply<LoginTryMessage>)
    ensures
        is_login_reply(r, message@, token@),
{
    HeaderedReply {
        body: LoginTryMessage { reply: message.to_owned(), token: token.to_owned() },
        header_name: get_cors_key().to_owned(),
        header_value: crate::cors_config::get_cors_value().to_owned(),
    }
}

/// The reply to a request that matches no route.
pub fn refuse_connection() -> (r: HeaderedReply<Message>)
    ensures
        is_site_reply(r, false, FORBIDDEN_TEXT@),
{
    reply_with_message(false, FORBIDDEN_TEXT)
}

/// What the service does with a customer request: store these records, or
/// answer at once.
pub enum WritingTaskAction {
    Insert(Vec<WriteToBaseNewCustomer>),
    Reply(HeaderedReply<Message>),
}

/// `rec` is the record that a valid customer request `body` is stored as:
/// id 0, the new-request status, the body's fields, no notes and no logs.
pub open spec fn is_new_customer_record(rec: WriteToBaseNewCustomer, body: WriteDataBody) -> bool {
    &&& rec.id == 0
    &&& rec.request_status@ == NEW_REQUEST_STATUS@
    &&& rec.customer_name@ == body.name@
    &&& rec.customer_email@ == body.email@
    &&& rec.customer_self_description@ == body.about_customer@
    &&& rec.owner_notes.notes@.len() == 0
    &&& rec.object_logs.logs@.len() == 0
}

/// The record of a valid request carries the visitor's fields unchanged,
/// with id 0, the new-request status, and no notes or logs.
pub proof fn lemma_new_customer_record_fields(rec: WriteToBaseNewCustomer, body: WriteDataBody)
    requires
        is_new_customer_record(rec, body),
    ensures
        rec.id == 0,
        rec.request_status@ == "БЕЗ ВНИМАНИЯ"@,
        rec.customer_name@ == body.name@,
        rec.customer_email@ == body.email@,
        rec.customer_self_description@ == body.about_customer@,
        rec.owner_notes.notes@.len() == 0,
        rec.object_logs.logs@.len() == 0,
{
}

/// A site reply carries exactly its outcome and text, and the CORS header
/// for the site's origin.
pub proof fn lemma_site_reply_fields(r: HeaderedReply<Message>, condition: bool, text: Seq<char>)
    requires
        is_site_reply(r, condition, text),
    ensures
        r.body.is_succeed == condition,
        r.body.message@ == text,
        r.header_name@ == "Access-Control-Allow-Origin"@,
        r.header_value@ == "http://ugo-vape.ru/"@,
{
}

/// A login reply carries exactly its text and token, and the CORS header for
/// any origin.
pub proof fn lemma_login_reply_fields(r: HeaderedReply<LoginTryMessage>, text: Seq<char>, token: Seq<char>)
    requires
        is_login_reply(r, text, token),
    ensures
        r.body.reply@ == text,
        r.body.token@ == token,
        r.header_name@ == "Access-Control-Allow-Origin"@,
        r.header_value@ == "*"@,
{
}

/// The text with which a customer request that fails `check` is refused.
pub open spec fn refusal_text(check: CheckFieldsCase) -> Seq<char> {
    match check {
        CheckFieldsCase::Email => EMAIL_TEXT@,
        CheckFieldsCase::Name => NAME_TEXT@,
        _ => ABOUT_TEXT@,
    }
}

/// Each refused field has its own text: the email one, the name one and the
/// self-description one, all different.
pub proof fn lemma_refusal_texts()
    ensures
        refusal_text(CheckFieldsCase::Email) == "Проверьте на правильность поле email"@,
        refusal_text(CheckFieldsCase::Name) == "Поле 'имя' должно содержать больше 1 символа"@,
        refusal_text(CheckFieldsCase::AboutCustomer) == "Поле 'о вас' должно содержать больше 1 символа"@,
        refusal_text(CheckFieldsCase::Email) != refusal_text(CheckFieldsCase::Name),
        refusal_text(CheckFieldsCase::Email) != refusal_text(CheckFieldsCase::AboutCustomer),
        refusal_text(CheckFieldsCase::Name) != refusal_text(CheckFieldsCase::AboutCustomer),
{
    reveal_strlit("Проверьте на правильность поле email");
    reveal_strlit("Поле 'имя' должно содержать больше 1 символа");
    reveal_strlit("Поле 'о вас' должно содержать больше 1 символа");
    assert(refusal_text(CheckFieldsCase::Name)[7] != refusal_text(CheckFieldsCase::AboutCustomer)[7]);
    assert(refusal_text(CheckFieldsCase::Email)[1] != refusal_text(CheckFieldsCase::Name)[1]);
    assert(refusal_text(CheckFieldsCase::Email)[1] != refusal_text(CheckFieldsCase::AboutCustomer)[1]);
}

/// Decides what to do with a customer request: a request whose fields pass
/// the check becomes one record to insert; any other is refused with the
/// text that names its first wrong field.
pub fn handle_writing_task(body: WriteDataBody) -> (res: WritingTaskAction)
    ensures
        ({
            let check = fields_check(body.email@, body.name@, body.about_customer@);
            &&& check == CheckFieldsCase::AllOk ==> (res matches WritingTaskAction::Insert(records)
                && records@.len() == 1 && is_new_customer_record(records@[0], body))
            &&& check != CheckFieldsCase::AllOk ==> (res matches WritingTaskAction::Reply(r)
                && is_site_reply(r, false, refusal_text(check)))
        }),
        (res matches WritingTaskAction::Insert(records) ==> {
            &&& records@.len() == 1
            &&& records@[0].id == 0
            &&& records@[0].request_status@ == NEW_REQUEST_STATUS@
            &&& records@[0].customer_name@ == body.name@
            &&& records@[0].customer_email@ == body.email@
            &&& records@[0].customer_self_description@ == body.about_customer@
            &&& records@[0].owner_notes.notes@.len() == 0
            &&& records@[0].object_logs.logs@.len() == 0
        }),
{
    match check_before_sending(&body) {
        CheckFieldsCase::AllOk => {
            let ghost old_body = body;
            let mut sample_to_write: Vec<WriteToBaseNewCustomer> = Vec::with_capacity(1);
            sample_to_write.push(
                WriteToBaseNewCustomer {
                    id: 0,
                    request_status: NEW_REQUEST_STATUS.to_owned(),
                    customer_name: body.name,
                    customer_email: body.email,
                    customer_self_description: body.about_customer,
                    owner_notes: OwnerNotes { notes: Vec::new() },
                    object_logs: ObjectLogs { logs: Vec::new() },
                },
            );
            assert(is_new_customer_record(sample_to_write@[0], old_body));
            WritingTaskAction::Insert(sample_to_write)
        },
        CheckFieldsCase::Email => WritingTaskAction::Reply(reply_with_message(false, EMAIL_TEXT)),
        CheckFieldsCase::Name => WritingTaskAction::Reply(reply_with_message(false, NAME_TEXT)),
        CheckFieldsCase::AboutCustomer => WritingTaskAction::Reply(reply_with_message(false, ABOUT_TEXT)),
    }
}

/// The reply once the database has answered the insertion of a customer
/// request: thanks on success, the database's error text on failure.
pub fn writing_task_reply(inserted: Result<(), String>) -> (r: HeaderedReply<Message>)
    ensures
        inserted is Ok ==> is_site_reply(r, true, THANKS_TEXT@),
        inserted matches Err(e) ==> is_site_reply(r, false, e@),
{
    match inserted {
        Ok(_) => reply_with_message(true, THANKS_TEXT),
        Err(e) => reply_with_message(false, e.as_str()),
    }
}

/// The reply to an age check: success exactly when the browser's token is
/// the active one.
pub fn handle_auth_check(body: &AgeStorageCheck, active_token: &String) -> (r: HeaderedReply<Message>)
    ensures
        active_token@ == body.token@ ==> is_site_reply(r, true, AUTHORIZED_TEXT@),
        active_token@ != body.token@ ==> is_site_reply(r, false, VERIFY_AGE_TEXT@),
{
    if *active_token == body.token {
        return reply_with_message(true, AUTHORIZED_TEXT);
    }
    reply_with_message(false, VERIFY_AGE_TEXT)
}

/// A lower-case hexadecimal digit.
pub open spec fn is_lower_hex(c: char) -> bool {
    ('0' <= c && c <= '9') || ('a' <= c && c <= 'f')
}

/// `s` is a random (version 4) UUID in its hyphenated lower-case form:
/// 36 characters, hyphens at 8, 13, 18 and 23, hex digits elsewhere, the
/// version digit `4` at 14 and a variant digit among `8 9 a b` at 19.
pub open spec fn is_hyphenated_v4_uuid(s: Seq<char>) -> bool {
    &&& s.len() == 36
    &&& forall|i: int| 0 <= i < 36 ==> (if i == 8 || i == 13 || i == 18 || i == 23 {
        s[i] == '-'
    } else {
        is_lower_hex(#[trigger] s[i])
    })
    &&& s[14] == '4'
    &&& (s[19] == '8' || s[19] == '9' || s[19] == 'a' || s[19] == 'b')
}

/// A fresh session id: `uuid::Uuid::new_v4()` turned into a `String` by
/// `From<Uuid> for String`. The contract claims the hyphenated lower-case
/// form with the version digit `4` and a variant digit among `8 9 a b`; the
/// other digits are random and nothing is claimed of them.
#[verifier::external_body]
fn new_session_id() -> (id: String)
    ensures
        is_hyphenated_v4_uuid(id@),
{
    String::from(uuid::Uuid::new_v4())
}

/// The token of a successful login is never the failure token `"Nil"`, so
/// the two outcomes of a login attempt can be told apart by the token alone.
pub proof fn lemma_session_token_is_not_nil(token: Seq<char>)
    requires
        is_hyphenated_v4_uuid(token),
    ensures
        token != NO_TOKEN@,
{
    reveal_strlit("Nil");
}

/// Opens a session with the given id and `SESSION_DURATION` seconds at the
/// end of the pool, and replies with that id as the token.
pub fn open_session(session_pool: &mut Vec<ActiveSessionsPool>, session_id: String) -> (r: HeaderedReply<LoginTryMessage>)
    ensures
        is_login_reply(r, LOGGED_IN_TEXT@, session_id@),
        sessions_view(final(session_pool)@) == sessions_view(old(session_pool)@).push(
            SessionView { session_id: session_id@, countdown_secs: SESSION_DURATION as int },
        ),
{
    let created_session = ActiveSessionsPool { session_id: session_id.clone(), countdown_secs: SESSION_DURATION };
    session_pool.push(created_session);
    assert(sessions_view(session_pool@) =~= sessions_view(old(session_pool)@).push(
        SessionView { session_id: session_id@, countdown_secs: SESSION_DURATION as int },
    ));
    login_try_reply_with_message(LOGGED_IN_TEXT, session_id.as_str())
}

/// Handles a login attempt at the admin panel. When the login and password
/// belong to an admin, a session with a fresh id and `SESSION_DURATION`
/// seconds is added to the pool and its id is the reply's token; otherwise
/// the pool is unchanged and the token is `"Nil"`.
pub fn handle_admin_login(
    body: LoginRequestData,
    session_pool: &mut Vec<ActiveSessionsPool>,
    admin_pool: &Vec<AdminsData>,
) -> (r: HeaderedReply<LoginTryMessage>)
    ensures
        login_matches(admin_pool@, body.login@, body.password@) ==> {
            &&& is_login_reply(r, LOGGED_IN_TEXT@, r.body.token@)
            &&& is_hyphenated_v4_uuid(r.body.token@)
            &&& sessions_view(final(session_pool)@) == sessions_view(old(session_pool)@).push(
                SessionView { session_id: r.body.token@, countdown_secs: SESSION_DURATION as int },
            )
        },
        !login_matches(admin_pool@, body.login@, body.password@) ==> {
            &&& is_login_reply(r, LOGIN_FAILED_TEXT@, NO_TOKEN@)
            &&& final(session_pool)@ == old(session_pool)@
        },
{
    if check_if_login_data_correct(body.login, body.password, admin_pool) {
        open_session(session_pool, new_session_id())
    } else {
        login_try_reply_with_message(LOGIN_FAILED_TEXT, NO_TOKEN)
    }
}

} // verus!
