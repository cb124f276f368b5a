//! Notification records and the keys they are stored under. A record is
//! stored under its id, and indexed per user under a key whose middle part
//! counts down with the record's date, so that a scan of the user's keys in
//! ascending order meets the newest notification first.

use vstd::prelude::*;
use crate::clock::{utc_now, UtcTime};
use crate::ids::{is_uuid_v4_text, new_uuid};
use crate::rpc::{Ack, Notification, Timestamp};
use crate::text::{decimal_padded, digit_char, push_char, push_decimal_padded, str_eq};

verus! {

/// A stored notification.
#[derive(Clone, Debug)]
pub struct NotificationRecord {
    pub id: String,
    pub user_id: String,
    pub message: String,
    pub date: UtcTime,
    pub read: bool,
}

/// The number written in a record's index key: `u64::MAX` minus the date's
/// milliseconds since the epoch (dates before the epoch count as 0).
pub open spec fn reverse_millis(date: UtcTime) -> int {
    u64::MAX - (if date.spec_millis() < 0 {
        0
    } else {
        date.spec_millis()
    })
}

/// The index key of a notification: the user id, ':', the reversed
/// milliseconds as 20 zero-padded digits, ':', the notification id.
pub open spec fn index_key(user_id: Seq<char>, date: UtcTime, id: Seq<char>) -> Seq<char> {
    user_id + seq![':'] + decimal_padded(reverse_millis(date) as nat, 20) + seq![':'] + id
}

/// The prefix that all index keys of one user start with.
pub open spec fn index_prefix(user_id: Seq<char>) -> Seq<char> {
    user_id + seq![':']
}

/// The index key of a notification.
pub fn user_index_key(user_id: &str, date: UtcTime, notification_id: &str) -> (key: String)
    requires
        date.valid(),
    ensures
        key@ == index_key(user_id@, date, notification_id@),
{
    let millis = date.timestamp_millis();
    let clamped: u64 = if millis < 0 {
        0
    } else {
        millis as u64
    };
    let reverse: u64 = u64::MAX - clamped;
    assert(reverse as int == reverse_millis(date));
    let mut key = String::from_str(user_id);
    push_char(&mut key, ':');
    push_decimal_padded(&mut key, reverse, 20);
    push_char(&mut key, ':');
    key.append(notification_id);
    assert(key@ =~= index_key(user_id@, date, notification_id@));
    key
}

/// The prefix to scan for a user's notifications.
pub fn user_prefix(user_id: &str) -> (prefix: String)
    ensures
        prefix@ == index_prefix(user_id@),
{
    let mut prefix = String::from_str(user_id);
    push_char(&mut prefix, ':');
    assert(prefix@ =~= index_prefix(user_id@));
    prefix
}

/// The record with its read flag set.
pub open spec fn spec_marked_read(r: NotificationRecord) -> NotificationRecord {
    NotificationRecord { read: true, ..r }
}

/// The answer to a mark-as-read call.
pub fn marked_read_ack() -> (a: Ack)
    ensures
        a.success,
        a.message@ == "notification marked as read"@,
{
    Ack { success: true, message: String::from_str("notification marked as read") }
}

/// The notification as the RPC answers show it: the date as seconds and
/// nanoseconds.
pub open spec fn notification_matches_record(n: Notification, r: NotificationRecord) -> bool {
    &&& n.id@ == r.id@
    &&& n.user_id@ == r.user_id@
    &&& n.message@ == r.message@
    &&& n.date == Some(Timestamp { seconds: r.date.secs, nanos: r.date.nanos as i32 })
    &&& n.read == r.read
}

impl NotificationRecord {
    /// A new, unread notification for `user_id`, with a fresh id and the
    /// current time as its date.
    pub fn create(user_id: String, message: String) -> (r: NotificationRecord)
        ensures
            r.user_id@ == user_id@,
            r.message@ == message@,
            !r.read,
            is_uuid_v4_text(r.id@),
            r.date.valid(),
    {
        NotificationRecord { id: new_uuid(), user_id, message, date: utc_now(), read: false }
    }

    /// The record as it is stored again once read.
    pub fn marked_read(self) -> (r: NotificationRecord)
        ensures
            r == spec_marked_read(self),
            r.id@ == self.id@,
            r.user_id@ == self.user_id@,
            r.message@ == self.message@,
            r.date == self.date,
            r.read,
    {
        NotificationRecord { read: true, ..self }
    }

    pub fn into_notification(self) -> (n: Notification)
        requires
            self.date.valid(),
        ensures
            notification_matches_record(n, self),
            n.id@ == self.id@,
            n.user_id@ == self.user_id@,
            n.message@ == self.message@,
            n.date == Some(Timestamp { seconds: self.date.secs, nanos: self.date.nanos as i32 }),
            n.read == self.read,
    {
        let nanos = self.date.nanos as i32;
        Notification {
            id: self.id,
            user_id: self.user_id,
            message: self.message,
            date: Some(Timestamp { seconds: self.date.secs, nanos }),
            read: self.read,
        }
    }
}

/// The answer to a listing: the records, in the order found, as
/// notifications.
pub fn notifications_from_records(rows: Vec<NotificationRecord>) -> (out: Vec<Notification>)
    requires
        forall|i: int| 0 <= i < rows.len() ==> (#[trigger] rows[i]).date.valid(),
    ensures
        out.len() == rows.len(),
        forall|i: int| 0 <= i < rows.len() ==> notification_matches_record(#[trigger] out[i], rows[i]),
        forall|i: int|
            0 <= i < rows.len() ==> (#[trigger] out[i]).id@ == rows[i].id@ && out[i].user_id@
                == rows[i].user_id@ && out[i].message@ == rows[i].message@ && out[i].read
                == rows[i].read && out[i].date == Some(
                Timestamp { seconds: rows[i].date.secs, nanos: rows[i].date.nanos as i32 },
            ),
{
    let ghost orig = rows@;
    let mut rows = rows;
    let mut out: Vec<Notification> = Vec::new();
    while rows.len() > 0
        invariant
            out.len() + rows.len() == orig.len(),
            rows@ == orig.skip(out.len() as int),
            forall|i: int| 0 <= i < orig.len() ==> (#[trigger] orig[i]).date.valid(),
            forall|i: int| 0 <= i < out.len() ==> notification_matches_record(#[trigger] out[i], orig[i]),
        decreases rows.len(),
    {
        let row = rows.remove(0);
        assert(row == orig[out.len() as int]);
        out.push(row.into_notification());
        assert(rows@ =~= orig.skip(out.len() as int));
    }
    out
}

/// The record belongs to the user `user_id`.
pub open spec fn belongs_to(user_id: Seq<char>) -> spec_fn(NotificationRecord) -> bool {
    |r: NotificationRecord| r.user_id@ == user_id
}

/// The rows of a prefix scan that belong to the user asked about, in the
/// order found. A scan of `user_id + ":"` also meets the keys of users whose
/// id starts with that text; their rows are dropped here, so a listing holds
/// only the user's own notifications.
pub fn records_of_user(rows: Vec<NotificationRecord>, user_id: &str) -> (out: Vec<NotificationRecord>)
    ensures
        out@ == rows@.filter(belongs_to(user_id@)),
{
    let ghost orig = rows@;
    let ghost p = belongs_to(user_id@);
    let mut rest = rows;
    let mut out: Vec<NotificationRecord> = Vec::new();
    let mut k: usize = 0;
    let n = rest.len();
    assert(orig.len() == n);
    while rest.len() > 0
        invariant
            k + rest.len() == orig.len(),
            rest@ == orig.skip(k as int),
            out@ == orig.take(k as int).filter(p),
            p == belongs_to(user_id@),
            orig.len() <= usize::MAX,
        decreases rest.len(),
    {
        let row = rest.remove(0);
        assert(row == orig[k as int]);
        let ghost s = orig.take(k + 1);
        assert(s.len() == k + 1);
        assert(s.drop_last() =~= orig.take(k as int));
        assert(s.last() == row);
        let keep = str_eq(row.user_id.as_str(), user_id);
        assert(p(row) == keep);
        reveal_with_fuel(Seq::<NotificationRecord>::filter, 1);
        assert(s.filter(p) == if p(s.last()) {
            s.drop_last().filter(p).push(s.last())
        } else {
            s.drop_last().filter(p)
        });
        assert(orig.take(k + 1).filter(p) == if p(row) {
            orig.take(k as int).filter(p).push(row)
        } else {
            orig.take(k as int).filter(p)
        });
        if keep {
            out.push(row);
        }
        assert(out@ == orig.take(k + 1).filter(p));
        k = k + 1;
        assert(rest@ =~= orig.skip(k as int));
    }
    assert(orig.take(k as int) =~= orig);
    out
}

/// `10` to the power `w`.
pub open spec fn pow10(w: nat) -> nat
    decreases w,
{
    if w == 0 {
        1
    } else {
        10 * pow10((w - 1) as nat)
    }
}

/// `a` comes before `b` in lexicographic order: they agree up to some
/// position where `a` has the smaller character.
pub open spec fn lex_before(a: Seq<char>, b: Seq<char>) -> bool {
    exists|k: int|
        0 <= k < a.len() && k < b.len() && a.subrange(0, k) == b.subrange(0, k) && (
        #[trigger] a[k] as int) < (b[k] as int)
}

proof fn lemma_decimal_padded_len(n: nat, w: nat)
    ensures
        decimal_padded(n, w).len() == w,
    decreases w,
{
    if w > 0 {
        lemma_decimal_padded_len(n / 10, (w - 1) as nat);
    }
}

/// Zero-padded decimal texts of the same width are ordered as the numbers
/// they write: the first differing digit is smaller in the smaller number.
proof fn lemma_decimal_padded_order(n1: nat, n2: nat, w: nat) -> (k: int)
    requires
        n1 < n2 < pow10(w),
    ensures
        0 <= k < w,
        decimal_padded(n1, w).subrange(0, k) == decimal_padded(n2, w).subrange(0, k),
        (decimal_padded(n1, w)[k] as int) < (decimal_padded(n2, w)[k] as int),
    decreases w,
{
    let w1 = (w - 1) as nat;
    let p = pow10(w1);
    let q1 = n1 / 10;
    let q2 = n2 / 10;
    let r1 = n1 % 10;
    let r2 = n2 % 10;
    lemma_decimal_padded_len(q1, w1);
    lemma_decimal_padded_len(q2, w1);
    assert(n1 == 10 * q1 + r1 && n2 == 10 * q2 + r2 && r1 < 10 && r2 < 10);
    if w == 0 {
        assert(false);
    }
    assert(q1 <= q2) by (nonlinear_arith)
        requires
            n1 < n2,
            q1 == n1 / 10,
            q2 == n2 / 10,
    ;
    let d1 = decimal_padded(n1, w);
    let d2 = decimal_padded(n2, w);
    assert(d1 == decimal_padded(q1, w1).push(digit_char(r1)));
    assert(d2 == decimal_padded(q2, w1).push(digit_char(r2)));
    if q1 == q2 {
        assert(r1 < r2);
        let k = w1 as int;
        assert(d1.subrange(0, k) =~= decimal_padded(q1, w1));
        assert(d2.subrange(0, k) =~= decimal_padded(q2, w1));
        assert(d1[k] == digit_char(r1));
        assert(d2[k] == digit_char(r2));
        k
    } else {
        assert(q2 < p) by (nonlinear_arith)
            requires
                n2 < 10 * p,
                q2 == n2 / 10,
        ;
        let k = lemma_decimal_padded_order(q1, q2, w1);
        assert(d1.subrange(0, k) =~= decimal_padded(q1, w1).subrange(0, k));
        assert(d2.subrange(0, k) =~= decimal_padded(q2, w1).subrange(0, k));
        assert(d1[k] == decimal_padded(q1, w1)[k]);
        assert(d2[k] == decimal_padded(q2, w1)[k]);
        k
    }
}

/// Law: every index key of a user starts with that user's scan prefix.
pub proof fn law_index_key_has_user_prefix(user_id: Seq<char>, date: UtcTime, id: Seq<char>)
    ensures
        index_key(user_id, date, id).subrange(0, index_prefix(user_id).len() as int)
            == index_prefix(user_id),
{
    assert(index_key(user_id, date, id).subrange(0, index_prefix(user_id).len() as int)
        =~= index_prefix(user_id));
}

/// Law: of two notifications of one user, the one with the later date has
/// the smaller index key, whatever their ids, so an ascending scan of the
/// user's keys lists newer notifications first. (Dates before the epoch all
/// count as the epoch, so the later date must be after it.)
pub proof fn law_newer_notification_sorts_first(
    user_id: Seq<char>,
    newer: UtcTime,
    older: UtcTime,
    newer_id: Seq<char>,
    older_id: Seq<char>,
)
    requires
        newer.valid(),
        older.valid(),
        newer.spec_millis() > older.spec_millis(),
        newer.spec_millis() > 0,
    ensures
        lex_before(index_key(user_id, newer, newer_id), index_key(user_id, older, older_id)),
{
    let r1 = reverse_millis(newer) as nat;
    let r2 = reverse_millis(older) as nat;
    assert(pow10(20) == 100_000_000_000_000_000_000) by {
        reveal_with_fuel(pow10, 21);
    }
    let k = lemma_decimal_padded_order(r1, r2, 20);
    let d1 = decimal_padded(r1, 20);
    let d2 = decimal_padded(r2, 20);
    lemma_decimal_padded_len(r1, 20);
    lemma_decimal_padded_len(r2, 20);
    let a = index_key(user_id, newer, newer_id);
    let b = index_key(user_id, older, older_id);
    let o = user_id.len() + 1;
    assert(a[o + k] == d1[k]);
    assert(b[o + k] == d2[k]);
    assert(a.subrange(0, o + k) =~= user_id + seq![':'] + d1.subrange(0, k));
    assert(b.subrange(0, o + k) =~= user_id + seq![':'] + d2.subrange(0, k));
    assert(lex_before(a, b)) by {
        assert((a[o + k] as int) < (b[o + k] as int));
    }
}

/// Law: marking a record read sets its read flag and keeps its id, user
/// id, message and date, so it stays in the same user's listing.
pub proof fn law_marked_read_keeps_fields(r: NotificationRecord, u: Seq<char>)
    ensures
        spec_marked_read(r).read,
        spec_marked_read(r).id@ == r.id@,
        spec_marked_read(r).user_id@ == r.user_id@,
        spec_marked_read(r).message@ == r.message@,
        spec_marked_read(r).date == r.date,
        belongs_to(u)(spec_marked_read(r)) == belongs_to(u)(r),
{
}

/// Law: a notification built from a stored record carries that record's id,
/// user id, message and read flag, and its date as seconds and nanoseconds.
pub proof fn law_notification_keeps_fields(n: Notification, r: NotificationRecord)
    requires
        r.date.valid(),
        notification_matches_record(n, r),
    ensures
        n.id@ == r.id@,
        n.user_id@ == r.user_id@,
        n.message@ == r.message@,
        n.read == r.read,
        n.date matches Some(t) && t.seconds == r.date.secs && t.nanos == r.date.nanos,
{
}

/// Law: marking a notification read a second time changes nothing more.
pub proof fn law_mark_read_idempotent(r: NotificationRecord)
    ensures
        spec_marked_read(spec_marked_read(r)) == spec_marked_read(r),
        spec_marked_read(r).read,
{
}

} // verus!
