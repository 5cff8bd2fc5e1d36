//! Account configuration, the sessions derived from it, and the scheduler's
//! bookkeeping of which accounts were started.
use crate::client::BananaErr;
use vstd::prelude::*;

verus! {

/// One account's stored configuration: an invite link and code from which a
/// session can be derived, and the session's tokens once it exists.
pub struct User {
    pub link: Option<String>,
    pub access_token: Option<String>,
    pub cookie_token: Option<String>,
    pub invite_code: Option<String>,
}

/// The credentials one running engine owns.
pub struct Session {
    pub account_name: String,
    pub access_token: String,
    pub cookie_token: String,
}

/// What the scheduler does with an account before bootstrapping it.
pub enum Setup {
    /// Both tokens are stored: use them.
    Ready(Session),
    /// A session must first be derived from this link and invite code.
    Login { link: String, invite_code: String },
}

impl Clone for User {
    fn clone(&self) -> (r: User)
        ensures
            r.link == self.link,
            r.access_token == self.access_token,
            r.cookie_token == self.cookie_token,
            r.invite_code == self.invite_code,
    {
        User {
            link: self.link.clone(),
            access_token: self.access_token.clone(),
            cookie_token: self.cookie_token.clone(),
            invite_code: self.invite_code.clone(),
        }
    }
}

impl User {
    /// Whether both tokens of a session are stored.
    pub fn has_session(&self) -> (r: bool)
        ensures
            r == (self.access_token is Some && self.cookie_token is Some),
    {
        self.access_token.is_some() && self.cookie_token.is_some()
    }

    /// The configuration with a freshly acquired session stored in it.
    pub fn with_session(self, access_token: String, cookie_token: String) -> (r: User)
        ensures
            r.link == self.link,
            r.invite_code == self.invite_code,
            r.access_token == Some(access_token),
            r.cookie_token == Some(cookie_token),
    {
        User {
            link: self.link,
            access_token: Some(access_token),
            cookie_token: Some(cookie_token),
            invite_code: self.invite_code,
        }
    }

    /// Decides how the account named `name` gets its session: stored tokens are
    /// used as they are; otherwise a login from the invite link (with an empty
    /// invite code when none is stored); without a link the login fails.
    pub fn setup(&self, name: &str) -> (r: Result<Setup, BananaErr>)
        ensures
            self.access_token is Some && self.cookie_token is Some ==> (r matches Ok(
                Setup::Ready(s),
            ) && s.account_name@ == name@ && Some(s.access_token) == self.access_token && Some(
                s.cookie_token,
            ) == self.cookie_token),
            !(self.access_token is Some && self.cookie_token is Some) && self.link is Some ==> (
            r matches Ok(Setup::Login { link, invite_code }) && self.link == Some(link) && (
            match self.invite_code {
                Some(c) => invite_code == c,
                None => invite_code@.len() == 0,
            })),
            !(self.access_token is Some && self.cookie_token is Some) && self.link is None ==> r
                == Err::<Setup, BananaErr>(BananaErr::LoginFailed),
    {
        match (&self.access_token, &self.cookie_token) {
            (Some(a), Some(c)) => {
                return Ok(
                    Setup::Ready(
                        Session {
                            account_name: name.to_owned(),
                            access_token: a.clone(),
                            cookie_token: c.clone(),
                        },
                    ),
                );
            },
            _ => {},
        }
        match &self.link {
            Some(link) => {
                let invite_code = match &self.invite_code {
                    Some(c) => c.clone(),
                    None => String::new(),
                };
                Ok(Setup::Login { link: link.clone(), invite_code })
            },
            None => Err(BananaErr::LoginFailed),
        }
    }
}

/// The scheduler's record of a start-up pass over the configured accounts, in
/// order: the next account to bootstrap, and those whose workers were started.
pub struct Roster {
    pub total: usize,
    pub next: usize,
    pub started: Vec<usize>,
    /// The bootstrap outcomes recorded so far, one per account.
    pub outcomes: Ghost<Seq<bool>>,
}

/// The accounts, among the first `outcomes.len()`, whose bootstrap succeeded.
pub open spec fn started_accounts(outcomes: Seq<bool>) -> Seq<usize>
    decreases outcomes.len(),
{
    if outcomes.len() == 0 {
        Seq::empty()
    } else {
        let before = started_accounts(outcomes.drop_last());
        if outcomes.last() {
            before.push((outcomes.len() - 1) as usize)
        } else {
            before
        }
    }
}

impl Roster {
    /// Well-formed: one outcome per account passed, and the started accounts
    /// are the successful ones among them.
    pub open spec fn wf(&self) -> bool {
        &&& self.next <= self.total
        &&& self.outcomes@.len() == self.next
        &&& self.started@ == started_accounts(self.outcomes@)
    }

    pub fn new(total: usize) -> (r: Roster)
        ensures
            r.wf(),
            r.total == total,
            r.next == 0,
            r.started@.len() == 0,
    {
        Roster { total, next: 0, started: Vec::new(), outcomes: Ghost(Seq::empty()) }
    }

    /// Whether accounts remain to be bootstrapped.
    pub fn has_next(&self) -> (r: bool)
        ensures
            r == (self.next < self.total),
    {
        self.next < self.total
    }

    /// Records the bootstrap outcome of the next account and moves on to the
    /// one after it, whatever the outcome: a failed account is skipped, and
    /// only a successful one gets a worker.
    pub fn record(&mut self, bootstrap_ok: bool)
        requires
            old(self).wf(),
            old(self).next < old(self).total,
        ensures
            final(self).wf(),
            final(self).total == old(self).total,
            final(self).next == old(self).next + 1,
            final(self).outcomes@ == old(self).outcomes@.push(bootstrap_ok),
            final(self).started@ == if bootstrap_ok {
                old(self).started@.push(old(self).next)
            } else {
                old(self).started@
            },
    {
        let ghost before = self.outcomes@;
        if bootstrap_ok {
            self.started.push(self.next);
        }
        self.outcomes = Ghost(before.push(bootstrap_ok));
        assert(self.outcomes@.drop_last() =~= before);
        self.next = self.next + 1;
    }
}

/// Over a start-up pass fed one bootstrap outcome per account, the workers
/// started are exactly the accounts whose own bootstrap succeeded: a failure
/// of one account keeps no other from starting.
pub proof fn lemma_roster_starts_each_success(outcomes: Seq<bool>)
    requires
        outcomes.len() <= usize::MAX,
    ensures
        forall|i: int|
            0 <= i < outcomes.len() ==> (outcomes[i] <==> started_accounts(outcomes).contains(
                i as usize,
            )),
    decreases outcomes.len(),
{
    if outcomes.len() > 0 {
        let init = outcomes.drop_last();
        lemma_roster_starts_each_success(init);
        lemma_started_below(init);
        let n = outcomes.len() - 1;
        assert forall|i: int| 0 <= i < outcomes.len() implies (outcomes[i]
            <==> started_accounts(outcomes).contains(i as usize)) by {
            let before = started_accounts(init);
            if i < n {
                assert(outcomes[i] == init[i]);
                if outcomes.last() {
                    let after = before.push(n as usize);
                    if after.contains(i as usize) {
                        let k = choose|k: int| 0 <= k < after.len() && after[k] == i as usize;
                        if k < before.len() {
                            assert(before[k] == after[k]);
                        }
                    }
                    if before.contains(i as usize) {
                        let k = choose|k: int| 0 <= k < before.len() && before[k] == i as usize;
                        assert(after[k] == before[k]);
                    }
                }
            } else {
                if outcomes.last() {
                    assert(before.push(n as usize)[before.len() as int] == n as usize);
                } else {
                    if before.contains(n as usize) {
                        let k = choose|k: int| 0 <= k < before.len() && before[k] == n as usize;
                    }
                }
            }
        }
    }
}

/// Every account recorded as started is below the number of outcomes.
proof fn lemma_started_below(outcomes: Seq<bool>)
    requires
        outcomes.len() <= usize::MAX,
    ensures
        forall|k: int|
            0 <= k < started_accounts(outcomes).len() ==> #[trigger] started_accounts(outcomes)[k]
                < outcomes.len(),
    decreases outcomes.len(),
{
    if outcomes.len() > 0 {
        let init = outcomes.drop_last();
        lemma_started_below(init);
        let before = started_accounts(init);
        let all = started_accounts(outcomes);
        assert forall|k: int| 0 <= k < all.len() implies #[trigger] all[k] < outcomes.len() by {
            if k < before.len() {
                assert(all[k] == before[k]);
            }
        }
    }
}

} // verus!
