//! Accounts and the settings shared by all of them.

use vstd::prelude::*;
use vstd::std_specs::cmp::PartialEqSpecImpl;
use ahash::AHashSet;
use ahash::RandomState;
use crate::schedule::all_valid;
use crate::schedule::DAY_MS;
use crate::schedule::fire_delay;
use crate::schedule::lemma_fires_at_next_trigger;
use crate::schedule::lemma_strictly_ascending_is_ascending;
use crate::schedule::local_millis;
use crate::schedule::next_fire_delay;
use crate::schedule::same_times;
use crate::schedule::sort_times;
use crate::schedule::strictly_ascending;
use crate::schedule::TimeOfDay;
use crate::text::clone_opt_text;
use crate::text::concat3;
use crate::text::decimal;
use crate::text::decimal_text;
use crate::text::opt_text;

verus! {

/// Attempts given to an account that names no bound of its own.
pub const DEFAULT_RETRY: u8 = 3;

/// The port for sending mail where none is set.
pub const DEFAULT_PORT: u32 = 465;

/// The mail host where none is set.
pub const DEFAULT_HOST: &'static str = "smtp.qq.com";

/// One account.
pub struct UserConfig {
    enable: bool,
    id: String,
    pwd: String,
    email: Option<String>,
    retry: Option<u8>,
    times: Vec<TimeOfDay>,
    lead_ms: u64,
}

/// An account as the contracts see it.
pub struct UserConfigView {
    /// Whether the account takes part in a run.
    pub enable: bool,
    /// The name the account logs in with.
    pub id: Seq<char>,
    /// Its password.
    pub pwd: Seq<char>,
    /// Where a notice of failure is sent, if anywhere.
    pub email: Option<Seq<char>>,
    /// The bound on attempts, if the account names one.
    pub retry: Option<u8>,
    /// The daily trigger times; none means an immediate run.
    pub trigger_times: Seq<TimeOfDay>,
    /// How many milliseconds before a trigger time the account starts.
    pub lead_ms: u64,
}

impl View for UserConfig {
    type V = UserConfigView;

    closed spec fn view(&self) -> UserConfigView {
        UserConfigView {
            enable: self.enable,
            id: self.id@,
            pwd: self.pwd@,
            email: opt_text(self.email),
            retry: self.retry,
            trigger_times: self.times@,
            lead_ms: self.lead_ms,
        }
    }
}

/// The number of attempts that a bound stands for: an unset bound means
/// three, a bound below one means one.
pub open spec fn attempts_allowed(retry: Option<u8>) -> u8 {
    match retry {
        Some(n) => if n < 1 {
            1
        } else {
            n
        },
        None => DEFAULT_RETRY,
    }
}

impl UserConfig {
    #[verifier::type_invariant]
    spec fn times_in_order(self) -> bool {
        strictly_ascending(self.times@) && all_valid(self.times@)
    }

    /// An account with the given fields, without trigger times.
    pub fn new(enable: bool, id: String, pwd: String, email: Option<String>, retry: Option<u8>) -> (r: Self)
        ensures
            r@ == (UserConfigView {
                enable,
                id: id@,
                pwd: pwd@,
                email: opt_text(email),
                retry,
                trigger_times: Seq::empty(),
                lead_ms: 0,
            }),
    {
        Self { enable, id, pwd, email, retry, times: Vec::new(), lead_ms: 0 }
    }

    /// The number of attempts the account is given, at least one.
    pub fn retry(&self) -> (r: u8)
        ensures
            r == attempts_allowed(self@.retry),
            r >= 1,
    {
        match self.retry {
            Some(num) => {
                if num < 1 {
                    1
                } else {
                    num
                }
            },
            None => DEFAULT_RETRY,
        }
    }

    /// The bound on attempts as it was set, if it was.
    pub fn retry_setting(&self) -> (r: Option<u8>)
        ensures
            r == self@.retry,
    {
        self.retry
    }

    /// The password.
    pub fn pwd(&self) -> (r: &str)
        ensures
            r@ == self@.pwd,
    {
        self.pwd.as_str()
    }

    /// An account without a bound of its own takes the shared one; an account
    /// with one keeps it.
    pub fn update_retry(&mut self, global_conf: &GlobalConfig)
        ensures
            final(self)@ == (UserConfigView {
                retry: Some(
                    match old(self)@.retry {
                        None => global_conf@.retry,
                        Some(n) => n,
                    },
                ),
                ..old(self)@
            }),
    {
        proof {
            use_type_invariant(&*self);
        }
        self.retry = Some(
            match self.retry {
                None => global_conf.retry(),
                Some(n) => n,
            },
        );
    }

    /// The name the account logs in with.
    pub fn id(&self) -> (r: &str)
        ensures
            r@ == self@.id,
    {
        self.id.as_str()
    }

    /// Whether the account takes part in a run.
    pub fn enable(&self) -> (r: bool)
        ensures
            r == self@.enable,
    {
        self.enable
    }

    /// Where a notice of failure is sent, if anywhere.
    pub fn email(&self) -> (r: Option<&str>)
        ensures
            r is Some <==> self@.email is Some,
            r matches Some(s) ==> s@ == self@.email.unwrap(),
    {
        match &self.email {
            Some(s) => Some(s.as_str()),
            None => None,
        }
    }

    /// The daily trigger times: in ascending order, each once, and each a
    /// time that a clock can show.
    pub fn trigger_times(&self) -> (r: &Vec<TimeOfDay>)
        ensures
            r@ == self@.trigger_times,
            strictly_ascending(r@),
            all_valid(r@),
    {
        proof {
            use_type_invariant(self);
        }
        &self.times
    }

    /// How many milliseconds before a trigger time the account starts.
    pub fn lead_ms(&self) -> (r: u64)
        ensures
            r == self@.lead_ms,
    {
        self.lead_ms
    }

    /// Gives the account its trigger times and its lead. The times are kept
    /// in ascending order, each once, in whatever order they come.
    pub fn set_schedule(&mut self, times: &Vec<TimeOfDay>, lead_ms: u64)
        ensures
            final(self)@ == (UserConfigView {
                trigger_times: final(self)@.trigger_times,
                lead_ms,
                ..old(self)@
            }),
            strictly_ascending(final(self)@.trigger_times),
            same_times(final(self)@.trigger_times, times@),
            all_valid(final(self)@.trigger_times),
    {
        proof {
            use_type_invariant(&*self);
        }
        self.times = sort_times(times);
        self.lead_ms = lead_ms;
    }

    /// How long the account waits, from the instant `now_unix_ms`, before its
    /// next trigger time fires; zero for an account without trigger times.
    ///
    /// An account without a lead fires exactly when the site's clock shows
    /// one of its trigger times.
    pub fn next_fire_delay(&self, now_unix_ms: u64) -> (delay_ms: u64)
        ensures
            delay_ms == fire_delay(now_unix_ms as int, self@.trigger_times, self@.lead_ms as int),
            delay_ms < DAY_MS,
            self@.lead_ms == 0 && self@.trigger_times.len() > 0 ==> exists|k: int|
                0 <= k < self@.trigger_times.len() && local_millis(now_unix_ms + delay_ms) == (
                #[trigger] self@.trigger_times[k]).millis(),
    {
        proof {
            use_type_invariant(self);
            if self.lead_ms == 0 && self.times@.len() > 0 {
                lemma_strictly_ascending_is_ascending(self.times@);
                lemma_fires_at_next_trigger(now_unix_ms as int, self.times@);
            }
        }
        next_fire_delay(now_unix_ms, &self.times, self.lead_ms)
    }

    /// A line that names the account, for logs.
    pub fn to_text(&self) -> (r: String)
        ensures
            r@ == "User["@ + self@.id + "-"@ + (if self@.enable { "true"@ } else { "false"@ }) + "]"@,
    {
        let mut s = concat3("User[", self.id.as_str(), "-");
        s.append(if self.enable { "true" } else { "false" });
        s.append("]");
        s
    }
}

impl Clone for UserConfig {
    fn clone(&self) -> (r: Self)
        ensures
            r@ == self@,
    {
        proof {
            use_type_invariant(self);
        }
        let times = self.times.clone();
        assert(times@ =~= self.times@);
        UserConfig {
            enable: self.enable,
            id: self.id.clone(),
            pwd: self.pwd.clone(),
            email: clone_opt_text(&self.email),
            retry: self.retry,
            times,
            lead_ms: self.lead_ms,
        }
    }
}

/// Two accounts are the same account when they log in with the same name.
impl PartialEq for UserConfig {
    fn eq(&self, other: &Self) -> (r: bool)
    {
        self.id == other.id
    }
}

impl PartialEqSpecImpl for UserConfig {
    open spec fn obeys_eq_spec() -> bool {
        true
    }

    /// Equal accounts are those with the same login name, whatever else
    /// they hold.
    open spec fn eq_spec(&self, other: &Self) -> bool {
        self@.id == other@.id
    }
}

impl Eq for UserConfig {}

/// `String`'s `hash`: it feeds the string to the hasher. Nothing is stated of
/// what the hasher makes of it.
pub assume_specification<H: core::hash::Hasher>[ <String as core::hash::Hash>::hash ](
    s: &String,
    state: &mut H,
);

/// Accounts are hashed by their login name alone, so that accounts that are
/// equal hash alike.
impl core::hash::Hash for UserConfig {
    fn hash<H: core::hash::Hasher>(&self, state: &mut H) {
        self.id.hash(state)
    }
}

impl Default for UserConfig {
    /// A disabled sample account.
    fn default() -> (r: Self)
        ensures
            r@ == (UserConfigView {
                enable: false,
                id: "test"@,
                pwd: "pwd"@,
                email: None,
                retry: None,
                trigger_times: Seq::empty(),
                lead_ms: 0,
            }),
    {
        Self {
            enable: false,
            id: String::from_str("test"),
            pwd: String::from_str("pwd"),
            email: None,
            retry: None,
            times: Vec::new(),
            lead_ms: 0,
        }
    }
}

/// How notices are mailed.
pub struct EmailConfig {
    user: String,
    pwd: String,
    sender: Option<String>,
    port: Option<u32>,
    host: Option<String>,
}

/// The mail settings as the contracts see them.
pub struct EmailConfigView {
    pub user: Seq<char>,
    pub pwd: Seq<char>,
    pub sender: Option<Seq<char>>,
    pub port: Option<u32>,
    pub host: Option<Seq<char>>,
}

impl View for EmailConfig {
    type V = EmailConfigView;

    closed spec fn view(&self) -> EmailConfigView {
        EmailConfigView {
            user: self.user@,
            pwd: self.pwd@,
            sender: opt_text(self.sender),
            port: self.port,
            host: opt_text(self.host),
        }
    }
}

impl EmailConfig {
    /// Mail settings with the given fields.
    pub fn new(user: String, pwd: String, sender: Option<String>, port: Option<u32>, host: Option<String>) -> (r: Self)
        ensures
            r@ == (EmailConfigView {
                user: user@,
                pwd: pwd@,
                sender: opt_text(sender),
                port,
                host: opt_text(host),
            }),
    {
        Self { user, pwd, sender, port, host }
    }

    /// The port to send through: the one set, else 465.
    pub fn port(&self) -> (r: u32)
        ensures
            r == match self@.port {
                Some(p) => p,
                None => DEFAULT_PORT,
            },
    {
        match self.port {
            Some(p) => p,
            None => DEFAULT_PORT,
        }
    }

    /// The host to send through: the one set, else `smtp.qq.com`.
    pub fn host(&self) -> (r: &str)
        ensures
            r@ == match self@.host {
                Some(h) => h,
                None => DEFAULT_HOST@,
            },
    {
        match self.host {
            Some(ref s) => s.as_str(),
            None => DEFAULT_HOST,
        }
    }

    /// The user to log in to the mail host as.
    pub fn user(&self) -> (r: &str)
        ensures
            r@ == self@.user,
    {
        self.user.as_str()
    }

    /// The password for the mail host.
    pub fn pwd(&self) -> (r: &str)
        ensures
            r@ == self@.pwd,
    {
        self.pwd.as_str()
    }

    /// The address that notices come from: the one set, else the mail user.
    pub fn sender(&self) -> (r: &str)
        ensures
            r@ == match self@.sender {
                Some(s) => s,
                None => self@.user,
            },
    {
        match self.sender {
            Some(ref s) => s.as_str(),
            None => self.user.as_str(),
        }
    }

    /// The port as it was set, if it was.
    pub fn port_setting(&self) -> (r: Option<u32>)
        ensures
            r == self@.port,
    {
        self.port
    }

    /// The host as it was set, if it was.
    pub fn host_setting(&self) -> (r: Option<&str>)
        ensures
            r is Some <==> self@.host is Some,
            r matches Some(s) ==> s@ == self@.host.unwrap(),
    {
        match &self.host {
            Some(s) => Some(s.as_str()),
            None => None,
        }
    }

    /// The sender as it was set, if it was.
    pub fn sender_setting(&self) -> (r: Option<&str>)
        ensures
            r is Some <==> self@.sender is Some,
            r matches Some(s) ==> s@ == self@.sender.unwrap(),
    {
        match &self.sender {
            Some(s) => Some(s.as_str()),
            None => None,
        }
    }

    /// A line that names the mail user, for logs.
    pub fn to_text(&self) -> (r: String)
        ensures
            r@ == "EmailConf["@ + self@.user + "]"@,
    {
        concat3("EmailConf[", self.user.as_str(), "]")
    }
}

impl Default for EmailConfig {
    /// Sample mail settings.
    fn default() -> (r: Self)
        ensures
            r@ == (EmailConfigView { user: "user"@, pwd: "pwd"@, sender: None, port: None, host: None }),
    {
        Self {
            user: String::from_str("user"),
            pwd: String::from_str("pwd"),
            sender: None,
            port: None,
            host: None,
        }
    }
}

/// The settings shared by all accounts.
pub struct GlobalConfig {
    retry: u8,
    emailconf: EmailConfig,
}

/// The shared settings as the contracts see them.
pub struct GlobalConfigView {
    pub retry: u8,
    pub emailconf: EmailConfigView,
}

impl View for GlobalConfig {
    type V = GlobalConfigView;

    closed spec fn view(&self) -> GlobalConfigView {
        GlobalConfigView { retry: self.retry, emailconf: self.emailconf@ }
    }
}

/// The line that sums shared settings up.
pub open spec fn global_text(global: GlobalConfigView) -> Seq<char> {
    "GlobalConf[delay: "@ + decimal_text(global.retry as nat) + "ms email: "@ + global.emailconf.user + "]"@
}

impl GlobalConfig {
    /// Shared settings with the given fields.
    pub fn new(retry: u8, emailconf: EmailConfig) -> (r: Self)
        ensures
            r@ == (GlobalConfigView { retry, emailconf: emailconf@ }),
    {
        Self { retry, emailconf }
    }

    /// The bound on attempts for accounts that name none.
    pub fn retry(&self) -> (r: u8)
        ensures
            r == self@.retry,
    {
        self.retry
    }

    /// The mail settings.
    pub fn emailconf(&self) -> (r: &EmailConfig)
        ensures
            r@ == self@.emailconf,
    {
        &self.emailconf
    }

    /// A line that sums the settings up, for logs.
    pub fn to_text(&self) -> (r: String)
        ensures
            r@ == global_text(self@),
    {
        let number = decimal(self.retry as u64);
        let mut s = concat3("GlobalConf[delay: ", number.as_str(), "ms email: ");
        s.append(self.emailconf.user());
        s.append("]");
        s
    }
}

impl Default for GlobalConfig {
    /// One attempt per account, and the sample mail settings.
    fn default() -> (r: Self)
        ensures
            r@ == (GlobalConfigView {
                retry: 1,
                emailconf: EmailConfigView { user: "user"@, pwd: "pwd"@, sender: None, port: None, host: None },
            }),
    {
        Self { retry: 1, emailconf: EmailConfig::default() }
    }
}

/// `ahash::AHashSet`, a hash set of the standard library with the hasher of
/// the `ahash` crate. Nothing inside it is visible here.
#[verifier::external_type_specification]
#[verifier::external_body]
#[verifier::reject_recursive_types(T)]
#[verifier::reject_recursive_types(S)]
pub struct ExAHashSet<T, S>(AHashSet<T, S>);

/// `ahash::RandomState`, the state from which that hasher is built.
#[verifier::external_type_specification]
#[verifier::external_body]
pub struct ExRandomState(RandomState);

/// The accounts that a set holds, each under its login name.
pub uninterp spec fn accounts_of(set: AHashSet<UserConfig>) -> Map<Seq<char>, UserConfig>;

/// `AHashSet::new`: a set that holds nothing.
#[verifier::external_body]
fn set_new() -> (r: AHashSet<UserConfig>)
    ensures
        accounts_of(r) == (Map::<Seq<char>, UserConfig>::empty()),
{
    AHashSet::new()
}

/// `HashSet::insert`, reached through `AHashSet`: an account whose login name
/// the set does not hold yet is added, and the result is `true`; otherwise
/// the set keeps the account it holds, and the result is `false`. Accounts
/// are told apart and hashed by their login name alone.
#[verifier::external_body]
fn set_insert(set: &mut AHashSet<UserConfig>, user: UserConfig) -> (r: bool)
    ensures
        r == !accounts_of(*old(set)).dom().contains(user@.id),
        accounts_of(*final(set)) == add_account(accounts_of(*old(set)), user),
{
    set.insert(user)
}

/// `HashSet::remove`, reached through `AHashSet`: the account with the
/// probe's login name leaves the set, and the result says whether there was
/// one.
#[verifier::external_body]
fn set_remove(set: &mut AHashSet<UserConfig>, probe: &UserConfig) -> (r: bool)
    ensures
        r == accounts_of(*old(set)).dom().contains(probe@.id),
        accounts_of(*final(set)) == accounts_of(*old(set)).remove(probe@.id),
{
    set.remove(probe)
}

/// `HashSet::iter`, reached through `AHashSet`, gathered into a list: every
/// account of the set once, in no order that could be named.
#[verifier::external_body]
fn set_items(set: &AHashSet<UserConfig>) -> (r: Vec<&UserConfig>)
    ensures
        forall|i: int| 0 <= i < r@.len() ==> accounts_of(*set).dom().contains((#[trigger] r@[i])@.id)
            && accounts_of(*set)[r@[i]@.id] == *r@[i],
        forall|i: int, j: int| 0 <= i < j < r@.len() ==> (#[trigger] r@[i])@.id != (#[trigger] r@[j])@.id,
        forall|k: Seq<char>| accounts_of(*set).dom().contains(k) ==> exists|i: int| 0 <= i < r@.len() && (#[trigger] r@[i])@.id == k,
{
    set.iter().collect()
}

/// The accounts with one more: an account whose login name is taken already
/// changes nothing.
pub open spec fn add_account(accounts: Map<Seq<char>, UserConfig>, user: UserConfig) -> Map<Seq<char>, UserConfig> {
    if accounts.dom().contains(user@.id) {
        accounts
    } else {
        accounts.insert(user@.id, user)
    }
}

/// The accounts with each account of the list added in turn.
pub open spec fn add_accounts(accounts: Map<Seq<char>, UserConfig>, users: Seq<UserConfig>) -> Map<Seq<char>, UserConfig>
    decreases users.len(),
{
    if users.len() == 0 {
        accounts
    } else {
        add_account(add_accounts(accounts, users.drop_last()), users.last())
    }
}

/// The accounts without those whose login names are in the list.
pub open spec fn remove_accounts(accounts: Map<Seq<char>, UserConfig>, names: Seq<Seq<char>>) -> Map<Seq<char>, UserConfig> {
    accounts.remove_keys(names.to_set())
}

/// Every account is kept under its own login name.
pub open spec fn keyed_by_name(accounts: Map<Seq<char>, UserConfig>) -> bool {
    forall|k: Seq<char>| accounts.dom().contains(k) ==> (#[trigger] accounts[k])@.id == k
}

/// What a configuration file holds.
pub struct ConfigFile {
    users: AHashSet<UserConfig>,
    global: GlobalConfig,
}

impl ConfigFile {
    #[verifier::type_invariant]
    spec fn well_formed(self) -> bool {
        keyed_by_name(accounts_of(self.users))
    }

    /// The accounts, each under its login name.
    pub closed spec fn accounts(&self) -> Map<Seq<char>, UserConfig> {
        accounts_of(self.users)
    }

    /// The shared settings.
    pub closed spec fn global(&self) -> GlobalConfigView {
        self.global@
    }

    /// The login names of the enabled accounts.
    pub open spec fn enabled_names(&self) -> Set<Seq<char>> {
        self.accounts().dom().filter(|k: Seq<char>| self.accounts()[k]@.enable)
    }

    /// The configuration holds the sample account, disabled, and nothing
    /// else, and one attempt per account with the sample mail settings as the
    /// shared settings.
    pub open spec fn is_sample(&self) -> bool {
        &&& self.accounts().dom() == set!["test"@]
        &&& self.accounts()["test"@]@ == (UserConfigView {
            enable: false,
            id: "test"@,
            pwd: "pwd"@,
            email: None,
            retry: None,
            trigger_times: Seq::empty(),
            lead_ms: 0,
        })
        &&& self.global() == (GlobalConfigView {
            retry: 1,
            emailconf: EmailConfigView { user: "user"@, pwd: "pwd"@, sender: None, port: None, host: None },
        })
    }

    /// The sample configuration.
    pub fn new() -> (r: Self)
        ensures
            r.is_sample(),
    {
        let mut users = set_new();
        let sample = UserConfig::default();
        let _r = set_insert(&mut users, sample);
        let global = GlobalConfig::default();
        assert(accounts_of(users).dom() =~= set!["test"@]);
        Self { users, global }
    }

    /// A configuration with the given accounts, added in the order of the
    /// list, and the given shared settings.
    pub fn from_parts(users: Vec<UserConfig>, global: GlobalConfig) -> (r: Self)
        ensures
            r.accounts() == add_accounts(Map::empty(), users@),
            r.global() == global@,
    {
        let mut file = Self { users: set_new(), global };
        file.addusers(users);
        file
    }

    /// The mail settings, taken out of the configuration.
    pub fn get_email_config(self) -> (r: EmailConfig)
        ensures
            r@ == self.global().emailconf,
    {
        self.global.emailconf
    }

    /// The set of accounts.
    pub fn users(&self) -> (r: &AHashSet<UserConfig>)
        ensures
            accounts_of(*r) == self.accounts(),
    {
        &self.users
    }

    /// A copy of every account, each once, in no particular order.
    pub fn get_users(&self) -> (r: Vec<UserConfig>)
        ensures
            forall|i: int| 0 <= i < r@.len() ==> self.accounts().dom().contains((#[trigger] r@[i])@.id)
                && self.accounts()[r@[i]@.id]@ == r@[i]@,
            forall|i: int, j: int| 0 <= i < j < r@.len() ==> (#[trigger] r@[i])@.id != (#[trigger] r@[j])@.id,
            forall|k: Seq<char>| self.accounts().dom().contains(k) ==> exists|i: int| 0 <= i < r@.len() && (#[trigger] r@[i])@.id == k,
    {
        let items = set_items(&self.users);
        let mut users: Vec<UserConfig> = Vec::new();
        let mut i: usize = 0;
        while i < items.len()
            invariant
                0 <= i <= items.len(),
                users@.len() == i,
                forall|j: int| 0 <= j < i ==> (#[trigger] users@[j])@ == items@[j]@,
            decreases items.len() - i,
        {
            users.push(items[i].clone());
            i = i + 1;
        }
        assert forall|k: Seq<char>| self.accounts().dom().contains(k) implies exists|i: int| 0 <= i < users@.len() && (#[trigger] users@[i])@.id == k by {
            let i = choose|i: int| 0 <= i < items@.len() && (#[trigger] items@[i])@.id == k;
            assert(users@[i]@ == items@[i]@);
        }
        users
    }

    /// The number of enabled accounts, and the number of all accounts.
    pub fn counts(&self) -> (r: (usize, usize))
        ensures
            self.accounts().dom().finite(),
            r.0 == self.enabled_names().len(),
            r.1 == self.accounts().dom().len(),
    {
        let items = set_items(&self.users);
        let ghost map = accounts_of(self.users);
        let mut enabled: usize = 0;
        let mut i: usize = 0;
        let mut seen: Ghost<Set<Seq<char>>> = Ghost(Set::empty());
        let mut seen_enabled: Ghost<Set<Seq<char>>> = Ghost(Set::empty());
        while i < items.len()
            invariant
                0 <= i <= items.len(),
                enabled <= i,
                seen@.finite(),
                seen@.len() == i,
                seen_enabled@.finite(),
                seen_enabled@.len() == enabled,
                forall|k: Seq<char>|
                    seen@.contains(k) <==> exists|j: int| 0 <= j < i && (#[trigger] items@[j])@.id == k,
                forall|k: Seq<char>|
                    seen_enabled@.contains(k) <==> exists|j: int|
                        0 <= j < i && (#[trigger] items@[j])@.id == k && items@[j]@.enable,
                forall|a: int, b: int|
                    0 <= a < b < items@.len() ==> (#[trigger] items@[a])@.id != (#[trigger] items@[b])@.id,
            decreases items.len() - i,
        {
            let ghost name = items@[i as int]@.id;
            proof {
                assert(!seen@.contains(name)) by {
                    if seen@.contains(name) {
                        let j = choose|j: int| 0 <= j < i && (#[trigger] items@[j])@.id == name;
                        assert(items@[j]@.id != items@[i as int]@.id);
                    }
                }
                assert(!seen_enabled@.contains(name)) by {
                    if seen_enabled@.contains(name) {
                        let j = choose|j: int|
                            0 <= j < i && (#[trigger] items@[j])@.id == name && items@[j]@.enable;
                        assert(items@[j]@.id != items@[i as int]@.id);
                    }
                }
            }
            if items[i].enable() {
                enabled = enabled + 1;
                proof {
                    seen_enabled@ = seen_enabled@.insert(name);
                }
            }
            proof {
                seen@ = seen@.insert(name);
            }
            i = i + 1;
        }
        proof {
            assert(seen@ =~= map.dom()) by {
                assert forall|k: Seq<char>| seen@.contains(k) <==> map.dom().contains(k) by {
                    if seen@.contains(k) {
                        let j = choose|j: int| 0 <= j < i && (#[trigger] items@[j])@.id == k;
                        assert(map.dom().contains(items@[j]@.id));
                    }
                }
            }
            assert(seen_enabled@ =~= self.enabled_names()) by {
                assert forall|k: Seq<char>| seen_enabled@.contains(k) <==> self.enabled_names().contains(k) by {
                    if seen_enabled@.contains(k) {
                        let j = choose|j: int|
                            0 <= j < i && (#[trigger] items@[j])@.id == k && items@[j]@.enable;
                        assert(map.dom().contains(items@[j]@.id) && map[items@[j]@.id] == *items@[j]);
                    }
                    if self.enabled_names().contains(k) {
                        let j = choose|j: int| 0 <= j < items@.len() && (#[trigger] items@[j])@.id == k;
                        assert(map.dom().contains(items@[j]@.id) && map[items@[j]@.id] == *items@[j]);
                    }
                }
            }
        }
        (enabled, items.len())
    }

    /// A line that sums the configuration up, for logs: the number of
    /// enabled accounts, the number of all accounts, and the shared settings.
    pub fn to_text(&self) -> (r: String)
        ensures
            r@ == "ConfigFile[users: "@ + decimal_text(self.enabled_names().len()) + "/"@ + decimal_text(
                self.accounts().dom().len(),
            ) + " "@ + global_text(self.global()) + "]"@,
    {
        let (enabled, all) = self.counts();
        let mut s = concat3("ConfigFile[users: ", decimal(enabled as u64).as_str(), "/");
        s.append(decimal(all as u64).as_str());
        s.append(" ");
        s.append(self.global.to_text().as_str());
        s.append("]");
        s
    }

    /// The shared settings.
    pub fn gloablconfig(&self) -> (r: &GlobalConfig)
        ensures
            r@ == self.global(),
    {
        &self.global
    }

    /// Adds the accounts in the order of the list. An account whose login
    /// name the configuration holds already is dropped: the one held stays.
    pub fn addusers(&mut self, users: Vec<UserConfig>)
        ensures
            final(self).accounts() == add_accounts(old(self).accounts(), users@),
            final(self).global() == old(self).global(),
    {
        proof {
            use_type_invariant(&*self);
        }
        let ghost all = users@;
        let ghost before = accounts_of(self.users);
        // The set is taken out while it changes and put back when it is done.
        let mut set = set_new();
        std::mem::swap(&mut set, &mut self.users);
        let mut users = users;
        let mut done: Ghost<int> = Ghost(0);
        while users.len() > 0
            invariant
                0 <= done@ <= all.len(),
                users@ == all.subrange(done@, all.len() as int),
                accounts_of(set) == add_accounts(before, all.take(done@)),
                keyed_by_name(accounts_of(set)),
            decreases users.len(),
        {
            let user = users.remove(0);
            proof {
                assert(all.take(done@ + 1).drop_last() == all.take(done@));
                assert(all.take(done@ + 1).last() == user);
            }
            let _r = set_insert(&mut set, user);
            proof {
                done@ = done@ + 1;
            }
        }
        assert(all.take(done@) == all);
        self.users = set;
    }

    /// Removes the accounts with the given login names; a name that the
    /// configuration does not hold changes nothing.
    pub fn rmusers(&mut self, users: Vec<&str>)
        ensures
            final(self).accounts() == remove_accounts(old(self).accounts(), users@.map_values(|s: &str| s@)),
            final(self).global() == old(self).global(),
    {
        proof {
            use_type_invariant(&*self);
        }
        let ghost names = users@.map_values(|s: &str| s@);
        let ghost before = accounts_of(self.users);
        // The set is taken out while it changes and put back when it is done.
        let mut set = set_new();
        std::mem::swap(&mut set, &mut self.users);
        let mut i: usize = 0;
        while i < users.len()
            invariant
                0 <= i <= users.len(),
                names == users@.map_values(|s: &str| s@),
                accounts_of(set) == before.remove_keys(names.take(i as int).to_set()),
                keyed_by_name(before),
            decreases users.len() - i,
        {
            let probe = UserConfig::new(true, String::from_str(users[i]), String::from_str(""), None, None);
            let _r = set_remove(&mut set, &probe);
            proof {
                let upto = names.take(i as int);
                let next = names.take(i + 1);
                assert(next.to_set() =~= upto.to_set().insert(names[i as int])) by {
                    assert forall|k: Seq<char>| next.to_set().contains(k) <==> upto.to_set().insert(names[i as int]).contains(k) by {
                        if next.contains(k) {
                            let j = choose|j: int| 0 <= j < next.len() && next[j] == k;
                            if j < i {
                                assert(upto[j] == k);
                            }
                        }
                        if upto.contains(k) {
                            let j = choose|j: int| 0 <= j < upto.len() && upto[j] == k;
                            assert(next[j] == k);
                        }
                        if k == names[i as int] {
                            assert(next[i as int] == k);
                        }
                    }
                }
                assert(accounts_of(set) =~= before.remove_keys(next.to_set()));
            }
            i = i + 1;
        }
        assert(names.take(i as int) == names);
        assert(keyed_by_name(accounts_of(set)));
        self.users = set;
    }
}

impl Default for ConfigFile {
    /// The sample configuration.
    fn default() -> (r: Self)
        ensures
            r.is_sample(),
    {
        ConfigFile::new()
    }
}

} // verus!
