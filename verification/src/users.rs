//! User records, user lookup keys, and the friends-list traversal.

use vstd::prelude::*;
use vstd::string::StringExecFns;

use crate::text::{bool_to_text, spec_bool_text, spec_decimal, u64_to_string};
use crate::urls::{friends_url, spec_friends_url};

verus! {

/// A user profile; every field optional because the two profile endpoints
/// each fill only part of the record.
#[derive(Clone, Debug)]
pub struct User {
    pub id: Option<u64>,
    pub username: Option<String>,
    pub avatarfinal: Option<bool>,
    pub avataruri: Option<String>,
    pub created: Option<String>,
    pub description: Option<String>,
    pub isbanned: Option<bool>,
    pub isonline: Option<bool>,
}

/// The business key a user lookup starts from.
pub enum UserKey {
    ById(u64),
    ByName(String),
}

/// A value that names a user: a numeric id, or a username that must first
/// be resolved to an id.
pub trait UserBuilder: Sized {
    /// The lookup key this value stands for.
    spec fn spec_key(&self) -> UserKey;

    /// Turn the value into its lookup key.
    fn key(self) -> (k: UserKey)
        ensures
            k == self.spec_key(),
    ;
}

impl UserBuilder for u64 {
    open spec fn spec_key(&self) -> UserKey {
        UserKey::ById(*self)
    }

    fn key(self) -> (k: UserKey) {
        UserKey::ById(self)
    }
}

impl UserBuilder for String {
    open spec fn spec_key(&self) -> UserKey {
        UserKey::ByName(*self)
    }

    fn key(self) -> (k: UserKey) {
        UserKey::ByName(self)
    }
}

/// The text an optional string renders as.
pub open spec fn spec_opt_text(o: Option<String>) -> Seq<char> {
    match o {
        Some(s) => s@,
        None => "unknown"@,
    }
}

/// The value an optional flag renders as.
pub open spec fn spec_opt_flag(o: Option<bool>) -> bool {
    match o {
        Some(b) => b,
        None => false,
    }
}

/// The display form of a user record.
pub open spec fn spec_describe_user(u: User) -> Seq<char>
    recommends
        u.id is Some,
{
    "User(id="@ + spec_decimal(u.id->0 as int) + ", username="@ + spec_opt_text(u.username)
        + ", created="@ + spec_opt_text(u.created) + ", isonline="@ + spec_bool_text(
        spec_opt_flag(u.isonline),
    ) + ", isbanned="@ + spec_bool_text(spec_opt_flag(u.isbanned)) + ")"@
}

impl User {
    /// Combine the two profile endpoints' records for one user id: the
    /// presence and avatar fields come from the legacy record, the rest
    /// from the detail record.
    pub fn merged(id: u64, base: User, detail: User) -> (u: User)
        ensures
            u.id == Some(id),
            u.username == base.username,
            u.avatarfinal == base.avatarfinal,
            u.avataruri == base.avataruri,
            u.isonline == base.isonline,
            u.created == detail.created,
            u.description == detail.description,
            u.isbanned == detail.isbanned,
    {
        User {
            id: Some(id),
            username: base.username,
            avatarfinal: base.avatarfinal,
            avataruri: base.avataruri,
            isonline: base.isonline,
            created: detail.created,
            description: detail.description,
            isbanned: detail.isbanned,
        }
    }

    /// Render the record for display; unknown fields show as "unknown" and
    /// unknown flags as false.
    pub fn describe(&self) -> (s: String)
        requires
            self.id is Some,
        ensures
            s@ == spec_describe_user(*self),
    {
        let mut s = String::from_str("User(id=");
        let id = match &self.id {
            Some(i) => *i,
            None => vstd::pervasive::unreached(),
        };
        let num = u64_to_string(id);
        s.append(num.as_str());
        s.append(", username=");
        match &self.username {
            Some(name) => s.append(name.as_str()),
            None => s.append("unknown"),
        }
        s.append(", created=");
        match &self.created {
            Some(created) => s.append(created.as_str()),
            None => s.append("unknown"),
        }
        s.append(", isonline=");
        let online = match &self.isonline {
            Some(b) => *b,
            None => false,
        };
        s.append(bool_to_text(online));
        s.append(", isbanned=");
        let banned = match &self.isbanned {
            Some(b) => *b,
            None => false,
        };
        s.append(bool_to_text(banned));
        s.append(")");
        proof {
            assert(s@ =~= spec_describe_user(*self));
        }
        s
    }
}

/// A friends-list traversal: the endpoint is paged by number, starting at
/// page one, and ends when a fetched page comes back empty.
pub struct FriendsTraversal {
    pub user_id: u64,
    pub page: u32,
    pub friends: Vec<User>,
    pub done: bool,
}

impl FriendsTraversal {
    /// Begin at page one with nothing accumulated.
    pub fn new(user_id: u64) -> (t: FriendsTraversal)
        ensures
            t.user_id == user_id,
            t.page == 1,
            t.friends@ == Seq::<User>::empty(),
            !t.done,
    {
        FriendsTraversal { user_id, page: 1, friends: Vec::new(), done: false }
    }

    /// The URL of the page the traversal expects next.
    pub fn current_url(&self) -> (u: String)
        ensures
            u@ == spec_friends_url(self.user_id as int, self.page as int),
    {
        friends_url(self.user_id, self.page)
    }

    /// Consume one fetched page. The first page is always accumulated; a
    /// later page that comes back empty ends the traversal; any other page
    /// extends the accumulator in received order and advances the page
    /// number.
    pub fn step(&mut self, page_items: Vec<User>) -> (more: bool)
        requires
            !old(self).done,
            1 <= old(self).page < u32::MAX,
        ensures
            final(self).user_id == old(self).user_id,
            old(self).page == 1 ==> final(self).friends@ == old(self).friends@ + page_items@
                && final(self).page == 2 && !final(self).done && more,
            old(self).page >= 2 && page_items@.len() == 0 ==> final(self).friends@
                == old(self).friends@ && final(self).page == old(self).page && final(self).done
                && !more,
            old(self).page >= 2 && page_items@.len() > 0 ==> final(self).friends@
                == old(self).friends@ + page_items@ && final(self).page == old(self).page + 1
                && !final(self).done && more,
    {
        if self.page >= 2 && page_items.is_empty() {
            self.done = true;
            false
        } else {
            let mut items = page_items;
            self.friends.append(&mut items);
            self.page = self.page + 1;
            true
        }
    }
}

} // verus!
