//! In-app notifications: read state.
use vstd::prelude::*;

use crate::error::{fails_as, not_found, ErrorSpec, KabiPayError};
use crate::ids::{uuid_text, uuid_to_string};

verus! {

/// A notification row's owner and read state.
#[derive(Clone, Copy, Debug)]
pub struct NotificationRow {
    pub id: u128,
    pub user_id: u128,
    pub is_read: bool,
    /// When it was read (seconds since the epoch).
    pub read_at: Option<i64>,
}

/// A notification once read at `now`: unchanged when it already was.
pub open spec fn read_at_time(n: NotificationRow, now: i64) -> NotificationRow {
    if n.is_read {
        n
    } else {
        NotificationRow { is_read: true, read_at: Some(now), ..n }
    }
}

/// Marks one notification read for its owner. A notification that does not
/// exist, or belongs to another user, is not found (nothing is changed);
/// one already read is returned unchanged.
pub fn mark_read(notification_id: u128, row: Option<NotificationRow>, user_id: u128, now: i64) -> (r:
    Result<NotificationRow, KabiPayError>)
    ensures
        row is None ==> fails_as(r, ErrorSpec::NotFound("notification"@, uuid_text(notification_id))),
        row matches Some(n) ==> (n.user_id != user_id ==> fails_as(
            r,
            ErrorSpec::NotFound("notification"@, uuid_text(notification_id)),
        )),
        row matches Some(n) ==> (n.user_id == user_id ==> r == Ok::<NotificationRow, KabiPayError>(
            read_at_time(n, now),
        )),
{
    let n = match row {
        None => {
            return Err(not_found("notification", uuid_to_string(notification_id)));
        },
        Some(n) => n,
    };
    if n.user_id != user_id {
        return Err(not_found("notification", uuid_to_string(notification_id)));
    }
    if n.is_read {
        return Ok(n);
    }
    Ok(NotificationRow { is_read: true, read_at: Some(now), ..n })
}

/// Marking a notification read twice is the same as once, whatever the
/// times: the first read time stays.
pub proof fn law_mark_read_idempotent(n: NotificationRow, t1: i64, t2: i64)
    ensures
        read_at_time(read_at_time(n, t1), t2) == read_at_time(n, t1),
        read_at_time(n, t1).is_read,
        !n.is_read ==> read_at_time(n, t1).read_at == Some(t1),
        n.is_read ==> read_at_time(n, t1) == n,
        read_at_time(n, t1).id == n.id && read_at_time(n, t1).user_id == n.user_id,
{
}

/// Marks every unread notification of a user read at `now` (`unread` are
/// that user's unread rows); returns the rows to write and how many there
/// were.
pub fn mark_all_read(unread: &Vec<NotificationRow>, now: i64) -> (r: (Vec<NotificationRow>, u64))
    requires
        unread.len() <= u64::MAX,
    ensures
        r.1 == unread@.len(),
        r.0@.len() == unread@.len(),
        forall|i: int| 0 <= i < unread@.len() ==> (#[trigger] r.0@[i]) == (NotificationRow {
            is_read: true,
            read_at: Some(now),
            ..unread@[i]
        }),
{
    let mut out: Vec<NotificationRow> = Vec::new();
    let mut i: usize = 0;
    while i < unread.len()
        invariant
            i <= unread.len(),
            out@.len() == i,
            forall|j: int| 0 <= j < i ==> (#[trigger] out@[j]) == (NotificationRow {
                is_read: true,
                read_at: Some(now),
                ..unread@[j]
            }),
        decreases unread.len() - i,
    {
        let n = unread[i];
        out.push(NotificationRow { is_read: true, read_at: Some(now), ..n });
        i = i + 1;
    }
    let count = unread.len() as u64;
    (out, count)
}

/// Whether the announcement bulletin is shown: managers always see it;
/// others only when their preferences keep it on.
pub fn announcements_shown(can_manage: bool, announcements_enabled: bool) -> (b: bool)
    ensures
        b == (can_manage || announcements_enabled),
{
    can_manage || announcements_enabled
}

} // verus!
