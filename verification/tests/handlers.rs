use ugo_backend::cors_config::{get, get_cors_key, get_cors_value, HttpMethod};
use ugo_backend::data_structs::{
    ActiveSessionsPool, AdminsData, AgeStorageCheck, CheckFieldsCase, LoginRequestData,
    WriteDataBody, SESSION_DURATION,
};
use ugo_backend::model_nosql::{
    check_before_sending, check_if_login_data_correct, reduce_by_30, CLEANER_PERIOD_SECS,
    refresh_pool_connection_step, session_reduce_timer_and_filter, RefreshAction,
    REFRESH_FIRST_TIMER, REFRESH_PERIOD,
};
use ugo_backend::warp_handler::{
    handle_admin_login, handle_auth_check, handle_writing_task, login_try_reply_with_message, open_session,
    refuse_connection, reply_with_message, writing_task_reply, WritingTaskAction,
};

fn session(id: &str, secs: u16) -> ActiveSessionsPool {
    ActiveSessionsPool { session_id: id.to_string(), countdown_secs: secs }
}

fn admins() -> Vec<AdminsData> {
    vec![
        AdminsData { id: 1, user_login: "root".to_string(), user_password: "hunter2".to_string() },
        AdminsData { id: 2, user_login: "egor".to_string(), user_password: "secret".to_string() },
    ]
}

fn body(email: &str, name: &str, about: &str) -> WriteDataBody {
    WriteDataBody { email: email.to_string(), name: name.to_string(), about_customer: about.to_string() }
}

#[test]
fn cors_key_and_value() {
    assert_eq!(get_cors_key(), "Access-Control-Allow-Origin");
    assert_eq!(get_cors_value(), "*");
}

#[test]
fn cors_policy_lists_headers_and_methods() {
    let p = get();
    assert!(p.allow_any_origin);
    assert_eq!(
        p.allowed_headers,
        vec!["Access-Control-Allow-Origin", "Origin", "Accept", "X-Requested-With", "Content-Type"]
    );
    assert_eq!(p.allowed_methods, vec![HttpMethod::Get, HttpMethod::Post]);
}

#[test]
fn session_duration_is_fifteen_minutes() {
    assert_eq!(SESSION_DURATION, 900);
}

#[test]
fn cleaner_period_is_thirty_seconds() {
    assert_eq!(CLEANER_PERIOD_SECS, 30);
}

#[test]
fn reduce_by_30_keeps_id() {
    let s = reduce_by_30(&session("abc", 900));
    assert_eq!(s.session_id, "abc");
    assert_eq!(s.countdown_secs, 870);
}

#[test]
fn reduce_by_30_reaches_zero() {
    let s = reduce_by_30(&session("abc", 30));
    assert_eq!(s.countdown_secs, 0);
}

#[test]
fn session_reduce_ages_all_in_order() {
    let out = session_reduce_timer_and_filter(vec![session("a", 60), session("b", 30), session("c", 900)]);
    assert_eq!(out.len(), 3);
    assert_eq!(out[0].session_id, "a");
    assert_eq!(out[0].countdown_secs, 30);
    assert_eq!(out[1].session_id, "b");
    assert_eq!(out[1].countdown_secs, 0);
    assert_eq!(out[2].session_id, "c");
    assert_eq!(out[2].countdown_secs, 870);
}

#[test]
fn session_reduce_drops_expired_sessions() {
    let out = session_reduce_timer_and_filter(vec![session("x", 10), session("y", 60), session("z", 29), session("w", 0)]);
    assert_eq!(out.len(), 1);
    assert_eq!(out[0].session_id, "y");
    assert_eq!(out[0].countdown_secs, 30);
}

#[test]
fn login_session_is_gone_after_31_rounds() {
    let mut sessions = Vec::new();
    let r = handle_admin_login(
        LoginRequestData { login: "root".to_string(), password: "hunter2".to_string() },
        &mut sessions,
        &admins(),
    );
    for round in 1..=30u16 {
        sessions = session_reduce_timer_and_filter(sessions);
        assert_eq!(sessions.len(), 1);
        assert_eq!(sessions[0].session_id, r.body.token);
        assert_eq!(sessions[0].countdown_secs, SESSION_DURATION - 30 * round);
    }
    sessions = session_reduce_timer_and_filter(sessions);
    assert!(sessions.is_empty());
}

#[test]
fn session_reduce_is_per_session() {
    let a = || vec![session("a", 45), session("b", 5)];
    let b = || vec![session("c", 30), session("d", 900)];
    let mut ab = a();
    ab.extend(b());
    let whole = session_reduce_timer_and_filter(ab);
    let mut parts = session_reduce_timer_and_filter(a());
    parts.extend(session_reduce_timer_and_filter(b()));
    let whole: Vec<(String, u16)> = whole.into_iter().map(|s| (s.session_id, s.countdown_secs)).collect();
    let parts: Vec<(String, u16)> = parts.into_iter().map(|s| (s.session_id, s.countdown_secs)).collect();
    assert_eq!(whole, parts);
    assert_eq!(whole, vec![("a".to_string(), 15), ("c".to_string(), 0), ("d".to_string(), 870)]);
}

#[test]
fn session_reduce_of_empty_pool() {
    assert!(session_reduce_timer_and_filter(Vec::new()).is_empty());
}

#[test]
fn login_check_needs_both_fields() {
    let pool = admins();
    assert!(check_if_login_data_correct("egor".to_string(), "secret".to_string(), &pool));
    assert!(check_if_login_data_correct("root".to_string(), "hunter2".to_string(), &pool));
    assert!(!check_if_login_data_correct("egor".to_string(), "hunter2".to_string(), &pool));
    assert!(!check_if_login_data_correct("nobody".to_string(), "secret".to_string(), &pool));
    assert!(!check_if_login_data_correct("root".to_string(), "hunter2".to_string(), &Vec::new()));
}

#[test]
fn refresh_step_reconnects_at_zero() {
    assert_eq!(refresh_pool_connection_step(0), (60, RefreshAction::Reconnect));
    assert_eq!(refresh_pool_connection_step(5), (4, RefreshAction::Wait));
    assert_eq!(refresh_pool_connection_step(60), (59, RefreshAction::Wait));
}

#[test]
fn refresh_waits_timer_ticks_then_reconnects() {
    let mut timer = REFRESH_FIRST_TIMER;
    let mut waits = 0;
    loop {
        let (next, action) = refresh_pool_connection_step(timer);
        timer = next;
        if action == RefreshAction::Reconnect {
            break;
        }
        waits += 1;
    }
    assert_eq!(waits, 10);
    assert_eq!(timer, REFRESH_PERIOD);
}

#[test]
fn fields_check_cases() {
    assert_eq!(check_before_sending(&body("a@b", "Ivan", "hi")), CheckFieldsCase::AllOk);
    assert_eq!(check_before_sending(&body("ab", "Ivan", "hi")), CheckFieldsCase::Email);
    assert_eq!(check_before_sending(&body("@ab", "Ivan", "hi")), CheckFieldsCase::Email);
    assert_eq!(check_before_sending(&body("ab@", "Ivan", "hi")), CheckFieldsCase::Email);
    assert_eq!(check_before_sending(&body("", "", "")), CheckFieldsCase::Email);
    assert_eq!(check_before_sending(&body("x@y.ru", "I", "hi")), CheckFieldsCase::Name);
    assert_eq!(check_before_sending(&body("x@y.ru", "Ivan", "h")), CheckFieldsCase::AboutCustomer);
}

#[test]
fn fields_check_counts_characters_not_bytes() {
    assert_eq!(check_before_sending(&body("я@почта.рф", "Ян", "ок")), CheckFieldsCase::AllOk);
    assert_eq!(check_before_sending(&body("я@почта.рф", "Я", "ок")), CheckFieldsCase::Name);
}

#[test]
fn writing_task_valid_body_becomes_one_record() {
    match handle_writing_task(body("ivan@mail.ru", "Ivan", "I want to order")) {
        WritingTaskAction::Insert(records) => {
            assert_eq!(records.len(), 1);
            let r = &records[0];
            assert_eq!(r.id, 0);
            assert_eq!(r.request_status, "БЕЗ ВНИМАНИЯ");
            assert_eq!(r.customer_name, "Ivan");
            assert_eq!(r.customer_email, "ivan@mail.ru");
            assert_eq!(r.customer_self_description, "I want to order");
            assert!(r.owner_notes.notes.is_empty());
            assert!(r.object_logs.logs.is_empty());
        }
        WritingTaskAction::Reply(_) => panic!("a valid body is stored"),
    }
}

#[test]
fn writing_task_refuses_bad_fields() {
    let cases = [
        (body("nope", "Ivan", "text"), "Проверьте на правильность поле email"),
        (body("a@b", "I", "text"), "Поле 'имя' должно содержать больше 1 символа"),
        (body("a@b", "Ivan", "t"), "Поле 'о вас' должно содержать больше 1 символа"),
    ];
    for (b, text) in cases {
        match handle_writing_task(b) {
            WritingTaskAction::Reply(r) => {
                assert!(!r.body.is_succeed);
                assert_eq!(r.body.message, text);
                assert_eq!(r.header_name, "Access-Control-Allow-Origin");
                assert_eq!(r.header_value, "http://ugo-vape.ru/");
            }
            WritingTaskAction::Insert(_) => panic!("a bad body is refused"),
        }
    }
}

#[test]
fn writing_task_reply_after_insert() {
    let ok = writing_task_reply(Ok(()));
    assert!(ok.body.is_succeed);
    assert_eq!(ok.body.message, "Спасибо! Ваш запрос был отправлен! Мы ответим вам как можно скорее.");
    let err = writing_task_reply(Err("Table doesn't exist".to_string()));
    assert!(!err.body.is_succeed);
    assert_eq!(err.body.message, "Table doesn't exist");
}

#[test]
fn refused_connection_reply() {
    let r = refuse_connection();
    assert!(!r.body.is_succeed);
    assert_eq!(r.body.message, "This request is forbidden, connection is dropped");
    assert_eq!(r.header_name, "Access-Control-Allow-Origin");
    assert_eq!(r.header_value, "http://ugo-vape.ru/");
}

#[test]
fn site_and_login_replies_headers() {
    let r = reply_with_message(true, "done");
    assert!(r.body.is_succeed);
    assert_eq!(r.body.message, "done");
    assert_eq!(r.header_value, "http://ugo-vape.ru/");
    let l = login_try_reply_with_message("hello", "tok");
    assert_eq!(l.body.reply, "hello");
    assert_eq!(l.body.token, "tok");
    assert_eq!(l.header_name, get_cors_key());
    assert_eq!(l.header_value, get_cors_value());
}

#[test]
fn auth_check_compares_tokens() {
    let active = "daily-token".to_string();
    let yes = handle_auth_check(&AgeStorageCheck { token: "daily-token".to_string() }, &active);
    assert!(yes.body.is_succeed);
    assert_eq!(yes.body.message, "You have already been authorized");
    let no = handle_auth_check(&AgeStorageCheck { token: "old".to_string() }, &active);
    assert!(!no.body.is_succeed);
    assert_eq!(no.body.message, "Please verify your age.");
}

#[test]
fn admin_login_success_opens_session() {
    let mut sessions = vec![session("older", 30)];
    let r = handle_admin_login(
        LoginRequestData { login: "egor".to_string(), password: "secret".to_string() },
        &mut sessions,
        &admins(),
    );
    assert_eq!(r.body.reply, "You're successfully logged in.");
    assert_eq!(r.header_value, "*");
    let token: Vec<char> = r.body.token.chars().collect();
    assert_eq!(token.len(), 36);
    for (i, c) in token.iter().enumerate() {
        if i == 8 || i == 13 || i == 18 || i == 23 {
            assert_eq!(*c, '-');
        } else {
            assert!(c.is_ascii_digit() || ('a'..='f').contains(c));
        }
    }
    assert_eq!(token[14], '4');
    assert!(['8', '9', 'a', 'b'].contains(&token[19]));
    assert_eq!(sessions.len(), 2);
    assert_eq!(sessions[0].session_id, "older");
    assert_eq!(sessions[1].session_id, r.body.token);
    assert_eq!(sessions[1].countdown_secs, 900);
}

#[test]
fn admin_logins_get_distinct_tokens() {
    let mut sessions = Vec::new();
    let a = handle_admin_login(
        LoginRequestData { login: "root".to_string(), password: "hunter2".to_string() },
        &mut sessions,
        &admins(),
    );
    let b = handle_admin_login(
        LoginRequestData { login: "root".to_string(), password: "hunter2".to_string() },
        &mut sessions,
        &admins(),
    );
    assert_ne!(a.body.token, b.body.token);
    assert_eq!(sessions.len(), 2);
}

#[test]
fn admin_login_failure_leaves_pool() {
    let mut sessions = vec![session("older", 60)];
    let r = handle_admin_login(
        LoginRequestData { login: "egor".to_string(), password: "wrong".to_string() },
        &mut sessions,
        &admins(),
    );
    assert_eq!(r.body.reply, "Failed to login! Check your login & password");
    assert_eq!(r.body.token, "Nil");
    assert_eq!(r.header_name, "Access-Control-Allow-Origin");
    assert_eq!(sessions.len(), 1);
    assert_eq!(sessions[0].session_id, "older");
    assert_eq!(sessions[0].countdown_secs, 60);
}

#[test]
fn open_session_uses_given_id() {
    let mut sessions = vec![session("older", 60)];
    let r = open_session(&mut sessions, "given-id".to_string());
    assert_eq!(r.body.reply, "You're successfully logged in.");
    assert_eq!(r.body.token, "given-id");
    assert_eq!(r.header_value, "*");
    assert_eq!(sessions.len(), 2);
    assert_eq!(sessions[1].session_id, "given-id");
    assert_eq!(sessions[1].countdown_secs, 900);
}
