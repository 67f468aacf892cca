use vstd::prelude::*;
use vstd::string::*;
use crate::data_structs::{ActiveSessionsPool, AdminsData, CheckFieldsCase, SESSION_DURATION, WriteDataBody};

verus! {

/// The timer value with which the connection refresher starts.
pub const REFRESH_FIRST_TIMER: u8 = 10;

/// The timer value to which the connection refresher resets after a reconnect.
pub const REFRESH_PERIOD: u8 = 60;

/// What the connection refresher does on one tick.
#[derive(Debug, PartialEq, Eq, Structural, Clone, Copy)]
pub enum RefreshAction {
    /// Open a new database connection and put it in place of the old one.
    Reconnect,
    /// Sleep one second.
    Wait,
}

/// One tick of the connection refresher: at zero it reconnects and resets the
/// timer to `REFRESH_PERIOD`, otherwise it waits and counts down by one.
pub open spec fn refresh_step(timer: u8) -> (u8, RefreshAction) {
    if timer == 0 {
        (REFRESH_PERIOD, RefreshAction::Reconnect)
    } else {
        ((timer - 1) as u8, RefreshAction::Wait)
    }
}

/// The timer of the refresher after `k` ticks from `timer`.
pub open spec fn timer_after(timer: u8, k: nat) -> u8
    decreases k,
{
    if k == 0 {
        timer
    } else {
        refresh_step(timer_after(timer, (k - 1) as nat)).0
    }
}

/// A tick at zero reconnects and sets the timer to 60; any other tick waits
/// and takes exactly one off the timer.
pub proof fn lemma_refresh_tick(timer: u8)
    ensures
        timer == 0 ==> refresh_step(timer) == (60u8, RefreshAction::Reconnect),
        timer > 0 ==> refresh_step(timer).1 == RefreshAction::Wait && refresh_step(timer).0 + 1 == timer,
{
}

/// Decides one tick of the connection refresher from its timer: the new timer
/// and the action to perform.
pub fn refresh_pool_connection_step(timer: u8) -> (res: (u8, RefreshAction))
    ensures
        res == refresh_step(timer),
{
    if timer == 0 {
        (REFRESH_PERIOD, RefreshAction::Reconnect)
    } else {
        (timer - 1, RefreshAction::Wait)
    }
}

/// Started at `timer`, the refresher waits on exactly `timer` ticks, then
/// reconnects and resets its timer to `REFRESH_PERIOD`.
pub proof fn lemma_refresh_reconnects_after_timer(timer: u8)
    ensures
        forall|k: nat| k < timer ==> (#[trigger] refresh_step(timer_after(timer, k))).1 == RefreshAction::Wait,
        timer_after(timer, timer as nat) == 0,
        refresh_step(timer_after(timer, timer as nat)) == (REFRESH_PERIOD, RefreshAction::Reconnect),
{
    assert forall|k: nat| k < timer implies (#[trigger] refresh_step(timer_after(timer, k))).1 == RefreshAction::Wait by {
        lemma_timer_counts_down(timer, k);
    }
    lemma_timer_counts_down(timer, timer as nat);
}

proof fn lemma_timer_counts_down(timer: u8, k: nat)
    requires
        k <= timer,
    ensures
        timer_after(timer, k) == timer - k,
    decreases k,
{
    if k > 0 {
        lemma_timer_counts_down(timer, (k - 1) as nat);
    }
}

/// What a session is, as a value: its id and the seconds it has left.
pub struct SessionView {
    pub session_id: Seq<char>,
    pub countdown_secs: int,
}

impl View for ActiveSessionsPool {
    type V = SessionView;

    open spec fn view(&self) -> SessionView {
        SessionView { session_id: self.session_id@, countdown_secs: self.countdown_secs as int }
    }
}

/// The sessions of a pool, as values.
pub open spec fn sessions_view(pool: Seq<ActiveSessionsPool>) -> Seq<SessionView> {
    pool.map_values(|s: ActiveSessionsPool| s@)
}

/// The seconds between two rounds of the session cleaner, which are also the
/// seconds that each round takes off every session.
pub const CLEANER_PERIOD_SECS: u16 = 30;

/// A session that has lived one cleaner period more.
pub open spec fn aged_by_30(s: SessionView) -> SessionView {
    SessionView { session_id: s.session_id, countdown_secs: s.countdown_secs - CLEANER_PERIOD_SECS }
}

/// A session that has lived `secs` seconds more.
pub open spec fn aged_by(s: SessionView, secs: int) -> SessionView {
    SessionView { session_id: s.session_id, countdown_secs: s.countdown_secs - secs }
}

/// Whether a session has at least one cleaner period left.
pub open spec fn has_period_left() -> spec_fn(SessionView) -> bool {
    |s: SessionView| s.countdown_secs >= CLEANER_PERIOD_SECS
}

/// Ageing by one cleaner period, as a function.
pub open spec fn age_one_period() -> spec_fn(SessionView) -> SessionView {
    |s: SessionView| aged_by_30(s)
}

/// One round of the session cleaner: the sessions that have at least one
/// period left, each aged by that period, in their order; the others expire.
pub open spec fn clean_step(pool: Seq<SessionView>) -> Seq<SessionView> {
    pool.filter(has_period_left()).map_values(age_one_period())
}

/// `k` rounds of the session cleaner.
pub open spec fn clean_steps(pool: Seq<SessionView>, k: nat) -> Seq<SessionView>
    decreases k,
{
    if k == 0 {
        pool
    } else {
        clean_step(clean_steps(pool, (k - 1) as nat))
    }
}

/// A round on an empty pool leaves it empty.
pub proof fn lemma_clean_step_empty()
    ensures
        clean_step(Seq::<SessionView>::empty()) == Seq::<SessionView>::empty(),
{
    reveal(Seq::filter);
    assert(clean_step(Seq::<SessionView>::empty()) =~= Seq::<SessionView>::empty());
}

/// A round on a pool of one session: the session with 30 seconds less when
/// it had at least 30 left, and nothing otherwise. With
/// `lemma_clean_step_distributes` and `lemma_clean_step_empty` this fixes
/// the round on every pool.
pub proof fn lemma_clean_step_single(s: SessionView)
    ensures
        clean_step(seq![s]) == (if s.countdown_secs >= 30 {
            seq![SessionView { session_id: s.session_id, countdown_secs: s.countdown_secs - 30 }]
        } else {
            Seq::<SessionView>::empty()
        }),
{
    lemma_clean_step_empty();
    lemma_clean_step_push(Seq::<SessionView>::empty(), s);
    assert(Seq::<SessionView>::empty().push(s) =~= seq![s]);
    if s.countdown_secs >= 30 {
        assert(Seq::<SessionView>::empty().push(aged_by_30(s)) =~= seq![
            SessionView { session_id: s.session_id, countdown_secs: s.countdown_secs - 30 },
        ]);
    }
}

/// The view of a pool has one entry per session, holding its id and its
/// seconds left.
pub proof fn lemma_sessions_view_entries(pool: Seq<ActiveSessionsPool>)
    ensures
        sessions_view(pool).len() == pool.len(),
        forall|i: int| 0 <= i < pool.len() ==> #[trigger] sessions_view(pool)[i] == (SessionView {
            session_id: pool[i].session_id@,
            countdown_secs: pool[i].countdown_secs as int,
        }),
{
}

/// One round on a pool with one more session at its end: the round of the
/// pool, then that session aged, if it had a period left.
pub proof fn lemma_clean_step_push(pool: Seq<SessionView>, x: SessionView)
    ensures
        clean_step(pool.push(x)) == if x.countdown_secs >= CLEANER_PERIOD_SECS {
            clean_step(pool).push(aged_by_30(x))
        } else {
            clean_step(pool)
        },
{
    pool.lemma_filter_push(x, has_period_left());
    if x.countdown_secs >= CLEANER_PERIOD_SECS {
        assert(clean_step(pool.push(x)) =~= clean_step(pool).push(aged_by_30(x)));
    }
}

/// A round treats each session on its own: on two pools put end to end it
/// gives the rounds of the two pools, end to end.
pub proof fn lemma_clean_step_distributes(a: Seq<SessionView>, b: Seq<SessionView>)
    ensures
        clean_step(a + b) == clean_step(a) + clean_step(b),
{
    Seq::filter_distributes_over_add(a, b, has_period_left());
    assert(clean_step(a + b) =~= clean_step(a) + clean_step(b));
}

/// After a round, every session left has a count that is not negative and
/// at least one period below the bound that held before the round.
pub proof fn lemma_clean_step_bound(pool: Seq<SessionView>, bound: int)
    requires
        forall|i: int| 0 <= i < pool.len() ==> (#[trigger] pool[i]).countdown_secs <= bound,
    ensures
        forall|j: int| 0 <= j < clean_step(pool).len() ==> 0 <= (#[trigger] clean_step(pool)[j]).countdown_secs
            <= bound - CLEANER_PERIOD_SECS,
{
    let kept = pool.filter(has_period_left());
    broadcast use vstd::seq_lib::group_filter_ensures;
    assert forall|j: int| 0 <= j < clean_step(pool).len() implies 0 <= (#[trigger] clean_step(pool)[j]).countdown_secs
        <= bound - CLEANER_PERIOD_SECS by {
        assert(clean_step(pool)[j] == aged_by_30(kept[j]));
        assert(kept.contains(kept[j]));
        pool.lemma_filter_contains_rev(has_period_left(), kept[j]);
        let i = choose|i: int| 0 <= i < pool.len() && pool[i] == kept[j];
        assert(pool[i].countdown_secs <= bound);
    }
}

/// After `k` rounds, a session added at the end of a pool is still at the
/// end, aged by `k` periods, while its count covered them; otherwise it has
/// expired and the rest of the pool is as if it had never been there.
pub proof fn lemma_clean_steps_push(pool: Seq<SessionView>, x: SessionView, k: nat)
    requires
        x.countdown_secs >= 0,
    ensures
        clean_steps(pool.push(x), k) == if x.countdown_secs >= CLEANER_PERIOD_SECS * k {
            clean_steps(pool, k).push(aged_by(x, CLEANER_PERIOD_SECS * k))
        } else {
            clean_steps(pool, k)
        },
    decreases k,
{
    if k == 0 {
        assert(aged_by(x, 0) == x);
    } else {
        let k1 = (k - 1) as nat;
        lemma_clean_steps_push(pool, x, k1);
        if x.countdown_secs >= CLEANER_PERIOD_SECS * k1 {
            let y = aged_by(x, CLEANER_PERIOD_SECS * k1);
            lemma_clean_step_push(clean_steps(pool, k1), y);
            assert(aged_by_30(y) == aged_by(x, CLEANER_PERIOD_SECS * k));
        }
    }
}

/// A login session, opened with `SESSION_DURATION` seconds, stays in the pool
/// for `SESSION_DURATION / 30` cleaner rounds, losing 30 seconds each round,
/// and is gone after the next round, whatever the rest of the pool holds.
pub proof fn lemma_login_session_expires(pool: Seq<SessionView>, session_id: Seq<char>)
    ensures
        forall|k: nat| k <= SESSION_DURATION / CLEANER_PERIOD_SECS ==> #[trigger] clean_steps(
            pool.push(SessionView { session_id, countdown_secs: SESSION_DURATION as int }),
            k,
        ) == clean_steps(pool, k).push(
            SessionView { session_id, countdown_secs: SESSION_DURATION - CLEANER_PERIOD_SECS * k },
        ),
        clean_steps(
            pool.push(SessionView { session_id, countdown_secs: SESSION_DURATION as int }),
            (SESSION_DURATION / CLEANER_PERIOD_SECS + 1) as nat,
        ) == clean_steps(pool, (SESSION_DURATION / CLEANER_PERIOD_SECS + 1) as nat),
{
    let x = SessionView { session_id, countdown_secs: SESSION_DURATION as int };
    assert forall|k: nat| k <= SESSION_DURATION / CLEANER_PERIOD_SECS implies #[trigger] clean_steps(pool.push(x), k)
        == clean_steps(pool, k).push(
        SessionView { session_id, countdown_secs: SESSION_DURATION - CLEANER_PERIOD_SECS * k },
    ) by {
        lemma_clean_steps_push(pool, x, k);
    }
    lemma_clean_steps_push(pool, x, (SESSION_DURATION / CLEANER_PERIOD_SECS + 1) as nat);
}

/// The same session with one cleaner period less left. The count is
/// unsigned, so only a session with at least a period left has one.
pub fn reduce_by_30(object: &ActiveSessionsPool) -> (res: ActiveSessionsPool)
    requires
        object.countdown_secs >= CLEANER_PERIOD_SECS,
    ensures
        res@ == aged_by_30(object@),
{
    ActiveSessionsPool {
        session_id: object.session_id.clone(),
        countdown_secs: object.countdown_secs - CLEANER_PERIOD_SECS,
    }
}

/// One round of the session cleaner: drops the sessions whose time runs
/// out within the round and ages the others by `CLEANER_PERIOD_SECS`, in
/// their order.
pub fn session_reduce_timer_and_filter(cloned: Vec<ActiveSessionsPool>) -> (res: Vec<ActiveSessionsPool>)
    ensures
        sessions_view(res@) == clean_step(sessions_view(cloned@)),
{
    let mut res: Vec<ActiveSessionsPool> = Vec::new();
    let n = cloned.len();
    for i in 0..n
        invariant
            n == cloned.len(),
            sessions_view(res@) == clean_step(sessions_view(cloned@.take(i as int))),
    {
        proof {
            assert(sessions_view(cloned@.take(i + 1)) =~= sessions_view(cloned@.take(i as int)).push(cloned@[i as int]@));
            lemma_clean_step_push(sessions_view(cloned@.take(i as int)), cloned@[i as int]@);
        }
        if cloned[i].countdown_secs >= CLEANER_PERIOD_SECS {
            let ghost before = res@;
            let reduced = reduce_by_30(&cloned[i]);
            res.push(reduced);
            assert(sessions_view(res@) =~= sessions_view(before).push(reduced@));
        }
    }
    assert(cloned@.take(n as int) =~= cloned@);
    res
}

/// Whether some admin of the pool has exactly this login and this password.
pub open spec fn login_matches(pool: Seq<AdminsData>, login: Seq<char>, password: Seq<char>) -> bool {
    exists|i: int| 0 <= i < pool.len() && (#[trigger] pool[i]).user_login@ == login && pool[i].user_password@ == password
}

/// An admin at any position of the pool whose login and password are both
/// those of the attempt accepts it.
pub proof fn lemma_login_matches_any_admin(pool: Seq<AdminsData>, login: Seq<char>, password: Seq<char>, i: int)
    requires
        0 <= i < pool.len(),
        pool[i].user_login@ == login,
        pool[i].user_password@ == password,
    ensures
        login_matches(pool, login, password),
{
}

/// An attempt that no admin of the pool matches on both login and password
/// is refused.
pub proof fn lemma_login_matches_only_admins(pool: Seq<AdminsData>, login: Seq<char>, password: Seq<char>)
    requires
        forall|i: int| 0 <= i < pool.len() ==> !((#[trigger] pool[i]).user_login@ == login && pool[i].user_password@ == password),
    ensures
        !login_matches(pool, login, password),
{
}

/// Checks a login attempt against the admin accounts.
pub fn check_if_login_data_correct(login: String, password: String, pool: &Vec<AdminsData>) -> (res: bool)
    ensures
        res == login_matches(pool@, login@, password@),
        res <==> exists|i: int| 0 <= i < pool@.len() && (#[trigger] pool@[i]).user_login@ == login@
            && pool@[i].user_password@ == password@,
{
    let n = pool.len();
    for i in 0..n
        invariant
            n == pool.len(),
            forall|j: int| 0 <= j < i ==> !((#[trigger] pool@[j]).user_login@ == login@ && pool@[j].user_password@ == password@),
    {
        if pool[i].user_login == login && pool[i].user_password == password {
            return true;
        }
    }
    false
}

/// An email address is taken when some `@` in it has a character before it
/// and a character after it. This rule is this library's own choice: the
/// service only tells the visitor to check the email field.
pub open spec fn email_is_plausible(email: Seq<char>) -> bool {
    exists|i: int| 0 < i < email.len() - 1 && email[i] == '@'
}

/// A name or a self-description is taken when it has more than one character.
pub open spec fn field_is_filled(field: Seq<char>) -> bool {
    field.len() > 1
}

/// The first field of a customer request that is wrong, in the order email,
/// name, self-description; `AllOk` when none is.
pub open spec fn fields_check(email: Seq<char>, name: Seq<char>, about: Seq<char>) -> CheckFieldsCase {
    if !email_is_plausible(email) {
        CheckFieldsCase::Email
    } else if !field_is_filled(name) {
        CheckFieldsCase::Name
    } else if !field_is_filled(about) {
        CheckFieldsCase::AboutCustomer
    } else {
        CheckFieldsCase::AllOk
    }
}

/// The outcome of the field check for every request: the email is refused
/// exactly when no `@` in it has a character on each side, whatever its
/// length; otherwise the name is refused exactly when it has at most one
/// character; otherwise the self-description is refused exactly when it has
/// at most one character; and the request passes exactly when none is.
pub proof fn lemma_fields_check_outcomes(email: Seq<char>, name: Seq<char>, about: Seq<char>)
    ensures
        (fields_check(email, name, about) == CheckFieldsCase::Email)
            <==> !(exists|i: int| 0 < i < email.len() - 1 && #[trigger] email[i] == '@'),
        (fields_check(email, name, about) == CheckFieldsCase::Name)
            <==> ((exists|i: int| 0 < i < email.len() - 1 && #[trigger] email[i] == '@') && name.len() <= 1),
        (fields_check(email, name, about) == CheckFieldsCase::AboutCustomer)
            <==> ((exists|i: int| 0 < i < email.len() - 1 && #[trigger] email[i] == '@') && name.len() > 1
                && about.len() <= 1),
        (fields_check(email, name, about) == CheckFieldsCase::AllOk)
            <==> ((exists|i: int| 0 < i < email.len() - 1 && #[trigger] email[i] == '@') && name.len() > 1
                && about.len() > 1),
{
}

/// An email with an `@` that has a character on each side is never the
/// field that refuses a request.
pub proof fn lemma_email_with_inner_at_passes(email: Seq<char>, name: Seq<char>, about: Seq<char>, i: int)
    requires
        0 < i < email.len() - 1,
        email[i] == '@',
    ensures
        fields_check(email, name, about) != CheckFieldsCase::Email,
        name.len() > 1 && about.len() > 1 ==> fields_check(email, name, about) == CheckFieldsCase::AllOk,
{
}

/// Whether the email field holds an `@` between two characters.
fn check_email(email: &str) -> (res: bool)
    ensures
        res == email_is_plausible(email@),
{
    let n = email.unicode_len();
    if n < 3 {
        return false;
    }
    let last = n - 1;
    for i in 1..last
        invariant
            n == email@.len(),
            last == n - 1,
            forall|j: int| 0 < j < i ==> email@[j] != '@',
    {
        if email.get_char(i) == '@' {
            return true;
        }
    }
    false
}

/// Checks the fields of a customer request before it is stored.
pub fn check_before_sending(body: &WriteDataBody) -> (res: CheckFieldsCase)
    ensures
        res == fields_check(body.email@, body.name@, body.about_customer@),
{
    if !check_email(body.email.as_str()) {
        CheckFieldsCase::Email
    } else if body.name.as_str().unicode_len() <= 1 {
        CheckFieldsCase::Name
    } else if body.about_customer.as_str().unicode_len() <= 1 {
        CheckFieldsCase::AboutCustomer
    } else {
        CheckFieldsCase::AllOk
    }
}

} // verus!
