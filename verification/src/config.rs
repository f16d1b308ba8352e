//! The application's configuration: server address, concurrency
//! bound, interface language, log level, and the named accounts with
//! their API keys.
//!
//! Accounts are kept as a list of entries with pairwise-distinct
//! names; lookups find the entry carrying a name, and the mutating
//! operations preserve distinctness. Reading and writing the on-disk
//! form is left to an unverified shell around the library.

use vstd::prelude::*;

use crate::i18n::Language;

verus! {

/// One account's secrets.
pub struct UserConfig {
    pub api_key: String,
}

/// One named account.
pub struct UserEntry {
    pub name: String,
    pub user: UserConfig,
}

/// The API key stored for `name`, scanning entries in order.
pub open spec fn spec_lookup(users: Seq<UserEntry>, name: Seq<char>) -> Option<Seq<char>>
    decreases users.len(),
{
    if users.len() == 0 {
        None
    } else if users[0].name@ == name {
        Some(users[0].user.api_key@)
    } else {
        spec_lookup(users.drop_first(), name)
    }
}

/// An entry carrying `name`, preceded only by other names, is the one
/// a lookup finds.
proof fn lemma_lookup_at(users: Seq<UserEntry>, name: Seq<char>, k: int)
    requires
        0 <= k < users.len(),
        users[k].name@ == name,
        forall|j: int| 0 <= j < k ==> (#[trigger] users[j].name@) != name,
    ensures
        spec_lookup(users, name) == Some(users[k].user.api_key@),
    decreases k,
{
    if k > 0 {
        lemma_lookup_at(users.drop_first(), name, k - 1);
    }
}

/// When no entry carries `name`, a lookup finds nothing.
proof fn lemma_lookup_none(users: Seq<UserEntry>, name: Seq<char>)
    requires
        forall|j: int| 0 <= j < users.len() ==> (#[trigger] users[j].name@) != name,
    ensures
        spec_lookup(users, name) is None,
    decreases users.len(),
{
    if users.len() > 0 {
        lemma_lookup_none(users.drop_first(), name);
    }
}

/// Replacing the entry at `i` by one carrying another name leaves
/// lookups of third names unchanged.
proof fn lemma_lookup_update_frame(users: Seq<UserEntry>, i: int, e: UserEntry, n: Seq<char>)
    requires
        0 <= i < users.len(),
        n != e.name@,
        n != users[i].name@,
    ensures
        spec_lookup(users.update(i, e), n) == spec_lookup(users, n),
    decreases i,
{
    if i == 0 {
        assert(users.update(0, e).drop_first() =~= users.drop_first());
    } else {
        if users[0].name@ != n {
            lemma_lookup_update_frame(users.drop_first(), i - 1, e, n);
            assert(users.update(i, e).drop_first() =~= users.drop_first().update(i - 1, e));
        }
    }
}

/// Appending an entry carrying another name leaves lookups of third
/// names unchanged.
proof fn lemma_lookup_push_frame(users: Seq<UserEntry>, e: UserEntry, n: Seq<char>)
    requires
        n != e.name@,
    ensures
        spec_lookup(users.push(e), n) == spec_lookup(users, n),
    decreases users.len(),
{
    if users.len() == 0 {
        assert(users.push(e)[0] == e);
        assert(users.push(e).drop_first() =~= Seq::<UserEntry>::empty());
        assert(spec_lookup(Seq::<UserEntry>::empty(), n) is None);
        assert(spec_lookup(users, n) is None);
    } else {
        assert(users.push(e)[0] == users[0]);
        if users[0].name@ != n {
            lemma_lookup_push_frame(users.drop_first(), e, n);
            assert(users.push(e).drop_first() =~= users.drop_first().push(e));
        }
    }
}

/// Removing the entry at `i` leaves lookups of other names unchanged.
proof fn lemma_lookup_remove_frame(users: Seq<UserEntry>, i: int, n: Seq<char>)
    requires
        0 <= i < users.len(),
        users[i].name@ != n,
    ensures
        spec_lookup(users.remove(i), n) == spec_lookup(users, n),
    decreases i,
{
    if i == 0 {
        assert(users.remove(0) =~= users.drop_first());
    } else {
        assert(users.remove(i)[0] == users[0]);
        if users[0].name@ != n {
            lemma_lookup_remove_frame(users.drop_first(), i - 1, n);
            assert(users.remove(i).drop_first() =~= users.drop_first().remove(i - 1));
        }
    }
}

/// Whether two strings hold the same characters.
fn str_eq(a: &str, b: &str) -> (r: bool)
    ensures
        r <==> a@ == b@,
{
    let la = a.unicode_len();
    let lb = b.unicode_len();
    if la != lb {
        return false;
    }
    let mut i: usize = 0;
    while i < la
        invariant
            i <= la,
            la == a@.len() == b@.len(),
            forall|j: int| 0 <= j < i ==> a@[j] == b@[j],
        decreases la - i,
    {
        if a.get_char(i) != b.get_char(i) {
            return false;
        }
        i = i + 1;
    }
    proof {
        assert(a@ =~= b@);
    }
    true
}

/// The application's configuration, as the settings screen edits it.
pub struct AppConfig {
    /// The account uploads run under by default.
    pub current_user: String,
    /// The server's base URL.
    pub server_url: String,
    /// How many uploads may run at once.
    pub concurrency: u8,
    /// The interface language.
    pub language: Language,
    /// The log level the shell initialises its logger with.
    pub log_level: String,
    /// The named accounts, names pairwise distinct.
    pub users: Vec<UserEntry>,
}

impl AppConfig {
    /// The account list's invariant: no name occurs twice.
    pub open spec fn users_wf(&self) -> bool {
        forall|i: int, j: int|
            0 <= i < j < self.users@.len() ==> (#[trigger] self.users@[i].name@) != (
            #[trigger] self.users@[j].name@)
    }

    /// The position of the entry carrying `name`, if one exists.
    fn user_index(&self, name: &str) -> (r: Option<usize>)
        ensures
            r is None ==> spec_lookup(self.users@, name@) is None && (forall|j: int|
                0 <= j < self.users@.len() ==> (#[trigger] self.users@[j].name@) != name@),
            r matches Some(i) ==> i < self.users@.len() && self.users@[i as int].name@ == name@
                && (forall|j: int|
                0 <= j < i ==> (#[trigger] self.users@[j].name@) != name@)
                && spec_lookup(self.users@, name@) == Some(
                self.users@[i as int].user.api_key@,
            ),
    {
        let n = self.users.len();
        let mut i: usize = 0;
        while i < n
            invariant
                i <= n,
                n == self.users@.len(),
                forall|j: int| 0 <= j < i ==> (#[trigger] self.users@[j].name@) != name@,
            decreases n - i,
        {
            if str_eq(self.users[i].name.as_str(), name) {
                proof {
                    lemma_lookup_at(self.users@, name@, i as int);
                }
                return Some(i);
            }
            i = i + 1;
        }
        proof {
            lemma_lookup_none(self.users@, name@);
        }
        None
    }

    /// The API key stored for `name`, if that account exists.
    pub fn lookup_api_key(&self, name: &str) -> (r: Option<String>)
        ensures
            r is Some <==> spec_lookup(self.users@, name@) is Some,
            r matches Some(k) ==> spec_lookup(self.users@, name@) == Some(k@),
    {
        match self.user_index(name) {
            Some(i) => Some(self.users[i].user.api_key.clone()),
            None => None,
        }
    }

    /// Stores an account: a fresh entry, or a new key for an existing
    /// name. The first account ever added becomes the default one.
    pub fn add_user(&mut self, name: String, api_key: String)
        requires
            old(self).users_wf(),
        ensures
            final(self).users_wf(),
            spec_lookup(final(self).users@, name@) == Some(api_key@),
            forall|n: Seq<char>|
                n != name@ ==> #[trigger] spec_lookup(final(self).users@, n) == spec_lookup(
                    old(self).users@,
                    n,
                ),
            old(self).current_user@.len() == 0 ==> final(self).current_user@ == name@,
            old(self).current_user@.len() > 0 ==> final(self).current_user == old(self)
                .current_user,
            final(self).server_url == old(self).server_url,
            final(self).concurrency == old(self).concurrency,
            final(self).language == old(self).language,
            final(self).log_level == old(self).log_level,
    {
        let ghost old_users = self.users@;
        let found = self.user_index(name.as_str());
        let entry = UserEntry { name: name.clone(), user: UserConfig { api_key } };
        match found {
            Some(i) => {
                self.users[i] = entry;
                proof {
                    assert forall|a: int, b: int|
                        0 <= a < b < self.users@.len() implies (#[trigger] self.users@[a].name@)
                        != (#[trigger] self.users@[b].name@) by {
                        assert(self.users@[a].name@ == old_users[a].name@);
                        assert(self.users@[b].name@ == old_users[b].name@);
                    }
                    lemma_lookup_at(self.users@, name@, i as int);
                    assert forall|n: Seq<char>| n != name@ implies #[trigger] spec_lookup(
                        self.users@,
                        n,
                    ) == spec_lookup(old_users, n) by {
                        lemma_lookup_update_frame(old_users, i as int, entry, n);
                    }
                }
            },
            None => {
                self.users.push(entry);
                proof {
                    assert forall|a: int, b: int|
                        0 <= a < b < self.users@.len() implies (#[trigger] self.users@[a].name@)
                        != (#[trigger] self.users@[b].name@) by {
                        if b < old_users.len() {
                            assert(self.users@[a] == old_users[a]);
                            assert(self.users@[b] == old_users[b]);
                        } else {
                            assert(self.users@[a] == old_users[a]);
                            assert(self.users@[b].name@ == name@);
                        }
                    }
                    lemma_lookup_at(self.users@, name@, old_users.len() as int);
                    assert forall|n: Seq<char>| n != name@ implies #[trigger] spec_lookup(
                        self.users@,
                        n,
                    ) == spec_lookup(old_users, n) by {
                        lemma_lookup_push_frame(old_users, entry, n);
                    }
                }
            },
        }
        if self.current_user.as_str().is_empty() {
            self.current_user = name;
        }
    }

    /// Removes the account carrying `name`, if one exists. When the
    /// default account was the one named, the first remaining account
    /// becomes the default, or none when the list is now empty.
    pub fn delete_user(&mut self, name: &str)
        requires
            old(self).users_wf(),
        ensures
            final(self).users_wf(),
            spec_lookup(final(self).users@, name@) is None,
            forall|n: Seq<char>|
                n != name@ ==> #[trigger] spec_lookup(final(self).users@, n) == spec_lookup(
                    old(self).users@,
                    n,
                ),
            old(self).current_user@ != name@ ==> final(self).current_user
                == old(self).current_user,
            old(self).current_user@ == name@ && final(self).users@.len() == 0 ==> final(self)
                .current_user@ == Seq::<char>::empty(),
            old(self).current_user@ == name@ && final(self).users@.len() > 0 ==> final(self)
                .current_user@ == final(self).users@[0].name@,
            final(self).server_url == old(self).server_url,
            final(self).concurrency == old(self).concurrency,
            final(self).language == old(self).language,
            final(self).log_level == old(self).log_level,
    {
        let ghost old_users = self.users@;
        let found = self.user_index(name);
        match found {
            Some(i) => {
                self.users.remove(i);
                proof {
                    old_users.remove_ensures(i as int);
                    assert forall|a: int, b: int|
                        0 <= a < b < self.users@.len() implies (#[trigger] self.users@[a].name@)
                        != (#[trigger] self.users@[b].name@) by {
                        if b < i {
                            assert(self.users@[a] == old_users[a]);
                            assert(self.users@[b] == old_users[b]);
                        } else if a < i {
                            assert(self.users@[a] == old_users[a]);
                            assert(self.users@[b] == old_users[b + 1]);
                        } else {
                            assert(self.users@[a] == old_users[a + 1]);
                            assert(self.users@[b] == old_users[b + 1]);
                        }
                    }
                    assert forall|j: int| 0 <= j < self.users@.len() implies (
                    #[trigger] self.users@[j].name@) != name@ by {
                        if j < i {
                            assert(self.users@[j] == old_users[j]);
                        } else {
                            assert(self.users@[j] == old_users[j + 1]);
                        }
                    }
                    lemma_lookup_none(self.users@, name@);
                    assert forall|n: Seq<char>| n != name@ implies #[trigger] spec_lookup(
                        self.users@,
                        n,
                    ) == spec_lookup(old_users, n) by {
                        lemma_lookup_remove_frame(old_users, i as int, n);
                    }
                }
            },
            None => {},
        }
        if str_eq(self.current_user.as_str(), name) {
            if self.users.len() == 0 {
                self.current_user = String::new();
            } else {
                self.current_user = self.users[0].name.clone();
            }
        }
    }

    /// Makes `name` the default account for uploads.
    pub fn set_default_user(&mut self, name: String)
        ensures
            final(self).current_user@ == name@,
            final(self).users == old(self).users,
            final(self).server_url == old(self).server_url,
            final(self).concurrency == old(self).concurrency,
            final(self).language == old(self).language,
            final(self).log_level == old(self).log_level,
    {
        self.current_user = name;
    }
}

impl Default for AppConfig {
    /// The configuration written on first start: no accounts, a local
    /// server, five concurrent uploads, English texts, info logging.
    fn default() -> (r: Self)
        ensures
            r.current_user@ == Seq::<char>::empty(),
            r.server_url@ == "http://localhost:2283"@,
            r.concurrency == 5,
            r.language == Language::English,
            r.log_level@ == "info"@,
            r.users@.len() == 0,
            r.users_wf(),
    {
        AppConfig {
            current_user: String::new(),
            server_url: String::from_str("http://localhost:2283"),
            concurrency: 5,
            language: Language::English,
            log_level: String::from_str("info"),
            users: Vec::new(),
        }
    }
}

} // verus!
