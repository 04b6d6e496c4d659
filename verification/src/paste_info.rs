//! The expiration record kept beside each paste, and the rules read from it.
//!
//! Times are whole seconds since the Unix epoch; windows are whole seconds.

use crate::paste_id::PasteID;
use vstd::prelude::*;

verus! {

/// Seconds a paste lives when the uploader asked for nothing else: 30 days.
pub const DEFAULT_LIFETIME_SECS: u64 = 2592000;

/// What a form upload carries besides the transport.
#[derive(Debug)]
pub struct PasteForm {
    pub content: String,
    pub extension: Option<String>,
    /// key to update/delete paste with
    pub key: Option<String>,
    /// delete after this date regardless
    pub delete_after: Option<String>,
    /// delete after this many views
    pub delete_after_num_views: Option<u32>,
    /// delete if last_viewed is longer than this many seconds ago
    pub delete_if_not_viewed_in_last_seconds: Option<u64>,
}

/// The metadata of one paste.
#[derive(Debug)]
pub struct PasteInfo {
    /// key to update/delete paste with
    pub key: Option<PasteID>,
    /// delete after this date regardless
    pub delete_after: Option<u64>,
    /// delete after this many views
    pub delete_after_num_views: Option<u32>,
    /// delete if last_viewed is longer than this many seconds ago
    pub delete_if_not_viewed_in_last_seconds: Option<u64>,
    /// Only Some if delete_if_not_viewed_in_last_seconds is Some
    pub last_viewed: Option<u64>,
    /// Only incremented if delete_after_num_views is Some, otherwise 0
    pub num_views: u32,
}

impl PasteInfo {
    /// The record's invariant: a last-viewed time is kept exactly when the
    /// inactivity rule is configured.
    pub open spec fn wf(self) -> bool {
        self.last_viewed is Some <==> self.delete_if_not_viewed_in_last_seconds is Some
    }

    /// No rule is configured at all.
    pub open spec fn has_no_rules(self) -> bool {
        &&& self.delete_after is None
        &&& self.delete_after_num_views is None
        &&& self.delete_if_not_viewed_in_last_seconds is None
    }

    /// The absolute-time rule is configured and `now` has reached it.
    pub open spec fn past_deadline(self, now: u64) -> bool {
        self.delete_after matches Some(t) && now >= t
    }

    /// The view-count rule is configured and the count has reached it.
    pub open spec fn views_used_up(self) -> bool {
        self.delete_after_num_views matches Some(n) && self.num_views >= n
    }

    /// The inactivity rule is configured and the last view lies further back
    /// than the window.
    pub open spec fn idle_too_long(self, now: u64) -> bool {
        self.delete_if_not_viewed_in_last_seconds matches Some(w) && (
        self.last_viewed matches Some(l) && now - w > l)
    }

    /// A paste is expired when any one configured rule holds.
    pub open spec fn expired(self, now: u64) -> bool {
        self.past_deadline(now) || self.views_used_up() || self.idle_too_long(now)
    }

    /// The record after one more successful read at `now`.
    pub open spec fn viewed(self, now: u64) -> PasteInfo {
        PasteInfo {
            key: self.key,
            delete_after: self.delete_after,
            delete_after_num_views: self.delete_after_num_views,
            delete_if_not_viewed_in_last_seconds: self.delete_if_not_viewed_in_last_seconds,
            last_viewed: if self.delete_if_not_viewed_in_last_seconds is Some {
                Some(now)
            } else {
                self.last_viewed
            },
            num_views: if self.delete_after_num_views is Some {
                (self.num_views + 1) as u32
            } else {
                self.num_views
            },
        }
    }

    /// The record of an upload that asked for nothing: it lives for
    /// `DEFAULT_LIFETIME_SECS` from `now` and has no other rule.
    pub fn default_at(now: u64) -> (info: PasteInfo)
        requires
            now + DEFAULT_LIFETIME_SECS <= u64::MAX,
        ensures
            info.key is None,
            info.delete_after == Some((now + DEFAULT_LIFETIME_SECS) as u64),
            info.delete_after_num_views is None,
            info.delete_if_not_viewed_in_last_seconds is None,
            info.last_viewed is None,
            info.num_views == 0,
            info.wf(),
    {
        PasteInfo {
            key: None,
            delete_after: Some(now + DEFAULT_LIFETIME_SECS),
            delete_after_num_views: None,
            delete_if_not_viewed_in_last_seconds: None,
            last_viewed: None,
            num_views: 0,
        }
    }

    /// The record of a form upload received at `now`: the form's view and
    /// inactivity rules, no deadline, no key, and the inactivity clock started.
    pub fn from_form(value: &PasteForm, now: u64) -> (info: PasteInfo)
        ensures
            info.key is None,
            info.delete_after is None,
            info.delete_after_num_views == value.delete_after_num_views,
            info.delete_if_not_viewed_in_last_seconds
                == value.delete_if_not_viewed_in_last_seconds,
            info.last_viewed == (if value.delete_if_not_viewed_in_last_seconds is Some {
                Some(now)
            } else {
                None::<u64>
            }),
            info.num_views == 0,
            info.wf(),
    {
        PasteInfo {
            key: None,
            delete_after: None,
            delete_after_num_views: value.delete_after_num_views,
            delete_if_not_viewed_in_last_seconds: value.delete_if_not_viewed_in_last_seconds,
            last_viewed: match value.delete_if_not_viewed_in_last_seconds {
                Some(_) => Some(now),
                None => None,
            },
            num_views: 0,
        }
    }

    /// Tells whether the record keeps its invariant, as one read from storage may not.
    pub fn is_well_formed(&self) -> (ok: bool)
        ensures
            ok == self.wf(),
    {
        self.last_viewed.is_some() == self.delete_if_not_viewed_in_last_seconds.is_some()
    }

    /// Whether the paste is to be deleted at `now`.
    pub fn should_delete(&self, now: u64) -> (gone: bool)
        ensures
            gone == self.expired(now),
    {
        let by_time = match self.delete_after {
            Some(t) => now >= t,
            None => false,
        };
        let by_views = match self.delete_after_num_views {
            Some(n) => self.num_views >= n,
            None => false,
        };
        let by_idleness = match (self.delete_if_not_viewed_in_last_seconds, self.last_viewed) {
            (Some(w), Some(l)) => now > l && now - l > w,
            _ => false,
        };
        by_time || by_views || by_idleness
    }

    /// Records one successful read at `now`. The view counter moves only under
    /// the view-count rule, the last-viewed time only under the inactivity
    /// rule. The result tells whether the stored record is now out of date.
    pub fn mark_viewed_and_write(&mut self, now: u64) -> (must_write: bool)
        requires
            old(self).delete_after_num_views is Some ==> old(self).num_views < u32::MAX,
        ensures
            *final(self) == old(self).viewed(now),
            must_write == (*final(self) != *old(self)),
            old(self).wf() ==> final(self).wf(),
    {
        let mut must_write = false;
        if self.delete_after_num_views.is_some() {
            must_write = true;
            self.num_views = self.num_views + 1;
        }
        if self.delete_if_not_viewed_in_last_seconds.is_some() {
            match self.last_viewed {
                Some(l) => {
                    if l != now {
                        must_write = true;
                    }
                },
                None => {
                    must_write = true;
                },
            }
            self.last_viewed = Some(now);
        }
        must_write
    }

    /// With no rule configured a paste never expires, whatever the time.
    pub proof fn lemma_no_rules_never_expires(self, now: u64)
        requires
            self.has_no_rules(),
        ensures
            !self.expired(now),
    {
    }

    /// A paste is expired exactly when some configured rule has its condition met.
    pub proof fn lemma_expired_iff_some_rule_holds(self, now: u64)
        requires
            self.wf(),
        ensures
            self.expired(now) <==> {
                ||| (self.delete_after is Some && now >= self.delete_after.unwrap())
                ||| (self.delete_after_num_views is Some && self.num_views
                    >= self.delete_after_num_views.unwrap())
                ||| (self.delete_if_not_viewed_in_last_seconds is Some && now
                    - self.delete_if_not_viewed_in_last_seconds.unwrap()
                    > self.last_viewed.unwrap())
            },
    {
    }

    /// A read of a paste with no view-count and no inactivity rule leaves the
    /// record as it was, so nothing needs writing, however often it is read.
    pub proof fn lemma_view_without_rules_changes_nothing(self, now: u64)
        requires
            self.delete_after_num_views is None,
            self.delete_if_not_viewed_in_last_seconds is None,
        ensures
            self.viewed(now) == self,
            self.viewed(now).viewed(now) == self,
    {
    }
}

} // verus!
