//! The user profile and its first-run setup.
//!
//! The setup wizard's screens, the profile file on disk and the actual
//! recording of environment variables are the caller's work; what is
//! decided here is what a finished wizard run amounts to: whether setup
//! was aborted, which environment variables are to be recorded, and what
//! profile and settings are to be written.

use vstd::prelude::*;

use crate::config::SettingsConfig;
use crate::environment_variables::EnvVar;

verus! {

/// One account recorded in the profile.
#[derive(Debug)]
pub struct Account {
    pub name: String,
    pub env_var_name: String,
}

/// The stored user profile.
#[derive(Debug)]
pub struct ProfileConfig {
    pub user_name: String,
    pub accounts: Vec<Account>,
}

/// One account as the setup wizard collected it.
#[derive(Debug)]
pub struct CreatedAccount {
    pub name: String,
    pub env_var_name: String,
    pub env_var_value: String,
    pub create_env_var: bool,
}

impl Clone for CreatedAccount {
    fn clone(&self) -> (r: Self)
        ensures
            r == *self,
    {
        CreatedAccount {
            name: self.name.clone(),
            env_var_name: self.env_var_name.clone(),
            env_var_value: self.env_var_value.clone(),
            create_env_var: self.create_env_var,
        }
    }
}

/// Everything the setup wizard collected.
#[derive(Debug)]
pub struct CreatedConfig {
    pub user_name: String,
    pub accounts: Vec<CreatedAccount>,
    pub abort: bool,
}

impl Clone for CreatedConfig {
    fn clone(&self) -> (r: Self)
        ensures
            r.user_name == self.user_name,
            r.accounts@ == self.accounts@,
            r.abort == self.abort,
    {
        let mut accounts: Vec<CreatedAccount> = Vec::new();
        let n = self.accounts.len();
        let mut i: usize = 0;
        while i < n
            invariant
                i <= n,
                n == self.accounts@.len(),
                accounts@ =~= self.accounts@.take(i as int),
            decreases n - i,
        {
            accounts.push(self.accounts[i].clone());
            i = i + 1;
            proof {
                assert(accounts@ =~= self.accounts@.take(i as int));
            }
        }
        proof {
            assert(self.accounts@.take(n as int) =~= self.accounts@);
        }
        CreatedConfig { user_name: self.user_name.clone(), accounts, abort: self.abort }
    }
}

impl ProfileConfig {
    /// The stored profile that a finished wizard run produces: the user's
    /// name, and each collected account reduced to what the profile
    /// keeps -- its name and the name of its environment variable.
    pub fn new(created_config: CreatedConfig) -> (r: ProfileConfig)
        ensures
            r.user_name == created_config.user_name,
            r.accounts@.len() == created_config.accounts@.len(),
            forall|i: int|
                0 <= i < r.accounts@.len() ==> r.accounts@[i].name
                    == created_config.accounts@[i].name && r.accounts@[i].env_var_name
                    == created_config.accounts@[i].env_var_name,
    {
        let user_name = created_config.user_name;
        let mut accounts: Vec<Account> = Vec::new();
        let n = created_config.accounts.len();
        let mut i: usize = 0;
        while i < n
            invariant
                i <= n,
                n == created_config.accounts@.len(),
                accounts@.len() == i,
                forall|k: int|
                    0 <= k < i ==> accounts@[k].name == created_config.accounts@[k].name
                        && accounts@[k].env_var_name == created_config.accounts@[k].env_var_name,
            decreases n - i,
        {
            let account = &created_config.accounts[i];
            accounts.push(
                Account {
                    name: account.name.clone(),
                    env_var_name: account.env_var_name.clone(),
                },
            );
            i = i + 1;
        }
        ProfileConfig { user_name, accounts }
    }
}

/// How a setup run ended.
#[derive(Debug)]
pub struct SetupResult {
    pub abort: bool,
}

/// Whether first-run setup is due: it is exactly when no profile exists
/// yet.
pub fn validate(profile_exists: bool) -> (r: bool)
    ensures
        r == !profile_exists,
{
    !profile_exists
}

/// The environment variables that the collected accounts ask to record:
/// of each account marked for recording, in order, the variable name and
/// the value.
pub open spec fn spec_selected_vars(accounts: Seq<CreatedAccount>) -> Seq<(Seq<char>, Seq<char>)>
    decreases accounts.len(),
{
    if accounts.len() == 0 {
        Seq::empty()
    } else {
        spec_selected_vars(accounts.drop_last()) + (if accounts.last().create_env_var {
            seq![(accounts.last().env_var_name@, accounts.last().env_var_value@)]
        } else {
            Seq::empty()
        })
    }
}

/// The names and values of a list of environment variables.
pub open spec fn env_vars_view(vars: Seq<EnvVar>) -> Seq<(Seq<char>, Seq<char>)> {
    Seq::new(vars.len(), |i: int| (vars[i].name@, vars[i].value@))
}

/// What a finished wizard run amounts to.  An aborted run asks for
/// nothing.  A completed run asks for no abort, for exactly the
/// environment variables of the accounts marked for recording, and for
/// the stored profile built from the collected data.
pub fn profile_setup(created_profile: &CreatedConfig) -> (r: (
    SetupResult,
    Vec<EnvVar>,
    Option<ProfileConfig>,
))
    ensures
        created_profile.abort ==> r.0.abort && r.1@.len() == 0 && r.2 is None,
        !created_profile.abort ==> {
            &&& !r.0.abort
            &&& env_vars_view(r.1@) == spec_selected_vars(created_profile.accounts@)
            &&& (r.2 matches Some(cfg) && cfg.user_name == created_profile.user_name
                && cfg.accounts@.len() == created_profile.accounts@.len() && (forall|i: int|
                0 <= i < cfg.accounts@.len() ==> cfg.accounts@[i].name
                    == created_profile.accounts@[i].name && cfg.accounts@[i].env_var_name
                    == created_profile.accounts@[i].env_var_name))
        },
{
    if created_profile.abort {
        return (SetupResult { abort: true }, Vec::new(), None);
    }
    let mut vars: Vec<EnvVar> = Vec::new();
    let n = created_profile.accounts.len();
    let mut i: usize = 0;
    while i < n
        invariant
            i <= n,
            n == created_profile.accounts@.len(),
            env_vars_view(vars@) == spec_selected_vars(created_profile.accounts@.take(i as int)),
        decreases n - i,
    {
        proof {
            assert(created_profile.accounts@.take(i + 1).drop_last() =~= created_profile.accounts@
                .take(i as int));
            assert(created_profile.accounts@.take(i + 1).last() == created_profile.accounts@[
                i as int
            ]);
        }
        let account = &created_profile.accounts[i];
        if account.create_env_var {
            vars.push(
                EnvVar { name: account.env_var_name.clone(), value: account.env_var_value.clone() },
            );
        }
        i = i + 1;
        proof {
            assert(env_vars_view(vars@) =~= spec_selected_vars(
                created_profile.accounts@.take(i as int),
            ));
        }
    }
    proof {
        assert(created_profile.accounts@.take(n as int) =~= created_profile.accounts@);
    }
    let config = ProfileConfig::new(created_profile.clone());
    (SetupResult { abort: false }, vars, Some(config))
}

/// One whole first-run setup: the profile decisions of `profile_setup`,
/// and the default settings that are written alongside them in any case.
pub fn setup(created_profile: &CreatedConfig) -> (r: (
    SetupResult,
    Vec<EnvVar>,
    Option<ProfileConfig>,
    SettingsConfig,
))
    ensures
        created_profile.abort ==> r.0.abort && r.1@.len() == 0 && r.2 is None,
        !created_profile.abort ==> {
            &&& !r.0.abort
            &&& env_vars_view(r.1@) == spec_selected_vars(created_profile.accounts@)
            &&& (r.2 matches Some(cfg) && cfg.user_name == created_profile.user_name
                && cfg.accounts@.len() == created_profile.accounts@.len() && (forall|i: int|
                0 <= i < cfg.accounts@.len() ==> cfg.accounts@[i].name
                    == created_profile.accounts@[i].name && cfg.accounts@[i].env_var_name
                    == created_profile.accounts@[i].env_var_name))
        },
        r.3.application.name@ == "k-aiti"@,
        r.3.models@.len() == 1,
        r.3.models@[0].id@ == "chatgpt"@,
        r.3.models@[0].name@ == "ChatGPT"@,
        r.3.modes.completion.id@ == "chatgpt"@,
        r.3.modes.chat.id@ == "chatgpt"@,
{
    let (result, vars, profile) = profile_setup(created_profile);
    let settings = crate::config::settings_setup();
    (result, vars, profile, settings)
}

} // verus!
