//! The bot's settings, read from environment variables.
use vstd::prelude::*;
use crate::text::{eq_ignore_ascii_case, same_text_ignore_ascii_case};

verus! {

/// One required setting, named after the field of `BotConfig` that holds it.
#[derive(Clone, Copy, Debug, PartialEq, Eq, Structural)]
pub enum Setting {
    BotToken,
    ApiToken,
    CollectionId,
}

/// Why the settings could not be read.
#[derive(Clone, Copy, Debug, PartialEq, Eq, Structural)]
pub enum ConfigError {
    /// No variable of the environment names this setting.
    Missing(Setting),
    /// More than one variable of the environment names this setting.
    Repeated(Setting),
}

/// The bot's settings. Each field is read from the environment variable named
/// by the field in upper case.
#[derive(Debug)]
pub struct BotConfig {
    /// The chat bot's token, from `BOT_TOKEN`.
    pub bot_token: String,
    /// The workspace API token, from `API_TOKEN`.
    pub api_token: String,
    /// The identifier of the database (collection) that the bot reads, from `COLLECTION_ID`.
    pub collection_id: String,
}

impl Setting {
    /// Name of the environment variable that holds the setting.
    pub open spec fn spec_var_name(self) -> Seq<char> {
        match self {
            Setting::BotToken => seq!['B','O','T','_','T','O','K','E','N'],
            Setting::ApiToken => seq!['A','P','I','_','T','O','K','E','N'],
            Setting::CollectionId => seq!['C','O','L','L','E','C','T','I','O','N','_','I','D'],
        }
    }

    /// Name of the environment variable that holds the setting.
    pub fn var_name(&self) -> (r: &'static str)
        ensures
            r@ == self.spec_var_name(),
    {
        match self {
            Setting::BotToken => {
                let r = "BOT_TOKEN";
                proof {
                    reveal_strlit("BOT_TOKEN");
                }
                assert(r@ =~= self.spec_var_name());
                r
            },
            Setting::ApiToken => {
                let r = "API_TOKEN";
                proof {
                    reveal_strlit("API_TOKEN");
                }
                assert(r@ =~= self.spec_var_name());
                r
            },
            Setting::CollectionId => {
                let r = "COLLECTION_ID";
                proof {
                    reveal_strlit("COLLECTION_ID");
                }
                assert(r@ =~= self.spec_var_name());
                r
            },
        }
    }
}

/// The value of the first variable in `vars` whose name equals `name` up to ASCII case.
pub open spec fn spec_lookup(vars: Seq<(String, String)>, name: Seq<char>) -> Option<Seq<char>>
    decreases vars.len(),
{
    if vars.len() == 0 {
        None
    } else if eq_ignore_ascii_case(vars[0].0@, name) {
        Some(vars[0].1@)
    } else {
        spec_lookup(vars.drop_first(), name)
    }
}

/// How many variables in `vars` have a name that equals `name` up to ASCII case.
pub open spec fn spec_count(vars: Seq<(String, String)>, name: Seq<char>) -> nat
    decreases vars.len(),
{
    if vars.len() == 0 {
        0
    } else {
        (if eq_ignore_ascii_case(vars[0].0@, name) { 1nat } else { 0nat }) + spec_count(vars.drop_first(), name)
    }
}

/// The value of `setting` in `vars`: the value of the one variable that names it,
/// or why there is none.
pub open spec fn spec_setting(vars: Seq<(String, String)>, setting: Setting) -> Result<Seq<char>, ConfigError> {
    let name = setting.spec_var_name();
    if spec_count(vars, name) == 0 {
        Err(ConfigError::Missing(setting))
    } else if spec_count(vars, name) > 1 {
        Err(ConfigError::Repeated(setting))
    } else {
        Ok(spec_lookup(vars, name)->Some_0)
    }
}

/// The settings that `vars` gives, in the order bot token, API token, collection
/// identifier; or the error of the first of them, in that order, that it does not give.
pub open spec fn spec_load(vars: Seq<(String, String)>) -> Result<(Seq<char>, Seq<char>, Seq<char>), ConfigError> {
    match (
        spec_setting(vars, Setting::BotToken),
        spec_setting(vars, Setting::ApiToken),
        spec_setting(vars, Setting::CollectionId),
    ) {
        (Ok(t), Ok(a), Ok(d)) => Ok((t, a, d)),
        (Err(e), _, _) => Err(e),
        (Ok(_), Err(e), _) => Err(e),
        (Ok(_), Ok(_), Err(e)) => Err(e),
    }
}

/// A variable that names nothing else is found by its first match.
proof fn lemma_count_lookup(vars: Seq<(String, String)>, name: Seq<char>)
    ensures
        (spec_count(vars, name) == 0) == (spec_lookup(vars, name) is None),
    decreases vars.len(),
{
    if vars.len() > 0 {
        lemma_count_lookup(vars.drop_first(), name);
    }
}

/// Loading succeeds exactly when each of the three settings is named by exactly
/// one variable, and then holds exactly their values; when any one of them is
/// missing (or repeated), it fails, naming that setting.
pub proof fn lemma_load_exact(vars: Seq<(String, String)>)
    ensures
        spec_load(vars) is Ok <==> {
            &&& spec_count(vars, Setting::BotToken.spec_var_name()) == 1
            &&& spec_count(vars, Setting::ApiToken.spec_var_name()) == 1
            &&& spec_count(vars, Setting::CollectionId.spec_var_name()) == 1
        },
        spec_load(vars) is Ok ==> {
            &&& spec_lookup(vars, Setting::BotToken.spec_var_name()) == Some(spec_load(vars)->Ok_0.0)
            &&& spec_lookup(vars, Setting::ApiToken.spec_var_name()) == Some(spec_load(vars)->Ok_0.1)
            &&& spec_lookup(vars, Setting::CollectionId.spec_var_name()) == Some(spec_load(vars)->Ok_0.2)
        },
        forall|s: Setting| spec_count(vars, #[trigger] s.spec_var_name()) == 0 ==> spec_load(vars) is Err,
        forall|s: Setting| spec_load(vars) == Err::<(Seq<char>, Seq<char>, Seq<char>), _>(ConfigError::Missing(s))
            ==> #[trigger] spec_count(vars, s.spec_var_name()) == 0,
        forall|s: Setting| spec_load(vars) == Err::<(Seq<char>, Seq<char>, Seq<char>), _>(ConfigError::Repeated(s))
            ==> #[trigger] spec_count(vars, s.spec_var_name()) > 1,
{
    lemma_count_lookup(vars, Setting::BotToken.spec_var_name());
    lemma_count_lookup(vars, Setting::ApiToken.spec_var_name());
    lemma_count_lookup(vars, Setting::CollectionId.spec_var_name());
}

/// How many variables in `vars` have a name that equals `name` up to ASCII case.
pub fn count_matches(vars: &Vec<(String, String)>, name: &str) -> (r: usize)
    ensures
        r == spec_count(vars@, name@),
{
    let mut i: usize = 0;
    let mut count: usize = 0;
    assert(vars@.skip(0) =~= vars@);
    while i < vars.len()
        invariant
            i <= vars@.len(),
            count <= i,
            spec_count(vars@, name@) == count + spec_count(vars@.skip(i as int), name@),
        decreases vars@.len() - i,
    {
        let rest = Ghost(vars@.skip(i as int));
        assert(rest@[0] == vars@[i as int]);
        assert(rest@.drop_first() =~= vars@.skip(i + 1));
        if same_text_ignore_ascii_case(vars[i].0.as_str(), name) {
            count = count + 1;
        }
        i = i + 1;
    }
    assert(vars@.skip(i as int) =~= Seq::<(String, String)>::empty());
    count
}

/// The value of the one variable in `vars` that names `setting`.
pub fn setting_value(vars: &Vec<(String, String)>, setting: Setting) -> (r: Result<String, ConfigError>)
    ensures
        match r {
            Ok(v) => spec_setting(vars@, setting) == Ok::<_, ConfigError>(v@),
            Err(e) => spec_setting(vars@, setting) == Err::<Seq<char>, _>(e),
        },
{
    let name = setting.var_name();
    let count = count_matches(vars, name);
    if count == 0 {
        return Err(ConfigError::Missing(setting));
    }
    if count > 1 {
        return Err(ConfigError::Repeated(setting));
    }
    proof {
        lemma_count_lookup(vars@, name@);
    }
    match lookup(vars, name) {
        Some(v) => Ok(v),
        None => Err(ConfigError::Missing(setting)),
    }
}

/// The value of the first variable in `vars` whose name equals `name` up to ASCII case.
pub fn lookup(vars: &Vec<(String, String)>, name: &str) -> (r: Option<String>)
    ensures
        match r {
            Some(v) => spec_lookup(vars@, name@) == Some(v@),
            None => spec_lookup(vars@, name@) is None,
        },
{
    let mut i: usize = 0;
    assert(vars@.skip(0) =~= vars@);
    while i < vars.len()
        invariant
            i <= vars@.len(),
            spec_lookup(vars@, name@) == spec_lookup(vars@.skip(i as int), name@),
        decreases vars@.len() - i,
    {
        let rest = Ghost(vars@.skip(i as int));
        assert(rest@[0] == vars@[i as int]);
        if same_text_ignore_ascii_case(vars[i].0.as_str(), name) {
            return Some(vars[i].1.clone());
        }
        assert(rest@.drop_first() =~= vars@.skip(i + 1));
        i = i + 1;
    }
    None
}

impl BotConfig {
    /// The settings that the environment `vars` (name and value pairs) gives:
    /// `BOT_TOKEN`, `API_TOKEN` and `COLLECTION_ID`, values taken as they are.
    /// A variable names a setting when its name equals the setting's variable name
    /// up to ASCII case; case is folded for ASCII letters only, by design. Each
    /// setting must be named by exactly one variable: it fails with the error of
    /// the first setting, in the order of the fields, that is missing or repeated.
    pub fn from_vars(vars: &Vec<(String, String)>) -> (r: Result<BotConfig, ConfigError>)
        ensures
            match r {
                Ok(c) => spec_load(vars@) == Ok::<_, ConfigError>((c.bot_token@, c.api_token@, c.collection_id@)),
                Err(e) => spec_load(vars@) == Err::<(Seq<char>, Seq<char>, Seq<char>), _>(e),
            },
    {
        let bot_token = match setting_value(vars, Setting::BotToken) {
            Ok(v) => v,
            Err(e) => {
                return Err(e);
            },
        };
        let api_token = match setting_value(vars, Setting::ApiToken) {
            Ok(v) => v,
            Err(e) => {
                return Err(e);
            },
        };
        let collection_id = match setting_value(vars, Setting::CollectionId) {
            Ok(v) => v,
            Err(e) => {
                return Err(e);
            },
        };
        Ok(BotConfig { bot_token, api_token, collection_id })
    }
}

} // verus!
