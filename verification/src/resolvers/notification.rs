//! Resolvers of the notification service.
use vstd::prelude::*;

use crate::error::{forbidden, is_forbidden, is_validation, KabiPayError};
use crate::ids::{parse_id_arg, uuid_parse};

verus! {

/// The resolvers of the notification service's queries.
pub struct QueryRoot;

impl QueryRoot {
    /// The admin views (`adminAnnouncements`, `adminNotifications`) need the
    /// `notification:manage` permission or an equivalent role.
    pub fn require_manager(can_manage: bool) -> (r: Result<(), KabiPayError>)
        ensures
            can_manage ==> r is Ok,
            !can_manage ==> is_forbidden(r, "notification:manage or equivalent role required"@),
    {
        if can_manage {
            Ok(())
        } else {
            Err(forbidden("notification:manage or equivalent role required"))
        }
    }

    /// `announcements`: whether the caller sees the bulletin, and whether
    /// the audience filter is bypassed (for managers).
    pub fn announcements_view(can_manage: bool, announcements_enabled: bool) -> (r: (bool, bool))
        ensures
            r.0 == (can_manage || announcements_enabled),
            r.1 == can_manage,
    {
        (crate::notification::announcements_shown(can_manage, announcements_enabled), can_manage)
    }
}

/// The resolvers of the notification service's mutations.
pub struct MutationRoot;

impl MutationRoot {
    /// `markNotificationRead`: the notification id.
    pub fn mark_notification_read(raw: &str) -> (r: Result<u128, KabiPayError>)
        ensures
            uuid_parse(raw@) matches Ok(v) ==> r == Ok::<u128, KabiPayError>(v),
            uuid_parse(raw@) matches Err(e) ==> is_validation(r, "invalid id: "@ + e),
    {
        parse_id_arg(raw, "invalid id: ")
    }
}

} // verus!
