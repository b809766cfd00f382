//! Runtime configuration and the counter update that depends on it.

use vstd::prelude::*;

verus! {

/// Name of the setting that holds the counter table's name.
pub const BUNS_TABLE_NAME: &'static str = "BUNS_TABLE_NAME";

/// Name of the setting that holds the target channel's URL.
pub const DEVIL_BOT_TEST_CHANNEL_URL: &'static str = "DEVIL_BOT_TEST_CHANNEL_URL";

/// A required setting is not there.
#[derive(Clone, Debug, PartialEq, Eq)]
pub enum ConfigError {
    /// The setting called `name` has no value.
    MissingConfiguration { name: String },
}

/// One atomic increment to ask of the counter store: add one to the field
/// `field_name` of the record of `table` whose key `key_name` is `key_value`.
#[derive(Clone, Debug, PartialEq, Eq)]
pub struct CounterIncrement {
    pub table: String,
    pub key_name: String,
    pub key_value: String,
    pub field_name: String,
}

/// Mathematical model of a [`CounterIncrement`].
pub ghost struct CounterIncrementModel {
    pub table: Seq<char>,
    pub key_name: Seq<char>,
    pub key_value: Seq<char>,
    pub field_name: Seq<char>,
}

impl View for CounterIncrement {
    type V = CounterIncrementModel;

    open spec fn view(&self) -> CounterIncrementModel {
        CounterIncrementModel {
            table: self.table@,
            key_name: self.key_name@,
            key_value: self.key_value@,
            field_name: self.field_name@,
        }
    }
}

/// The increment that counts one more for `user` in `table`.
pub open spec fn buns_increment(table: Seq<char>, user: Seq<char>) -> CounterIncrementModel {
    CounterIncrementModel {
        table,
        key_name: "user_id"@,
        key_value: user,
        field_name: "buns"@,
    }
}

/// Resolves a required setting from what the environment holds for it:
/// the value where there is one, otherwise an error that names the setting.
pub fn get_env_var(env_var: &str, value: Option<String>) -> (r: Result<String, ConfigError>)
    ensures
        match value {
            Some(v) => r == Ok::<String, ConfigError>(v),
            None => r is Err && r->Err_0 is MissingConfiguration
                && r->Err_0->name@ == env_var@,
        },
{
    match value {
        Some(v) => Ok(v),
        None => Err(ConfigError::MissingConfiguration { name: env_var.to_owned() }),
    }
}

/// Prepares the counter increment for a user. `table` is what the
/// environment holds under [`BUNS_TABLE_NAME`]; without it there is
/// nothing to send and the configuration error is returned.
pub fn increment_buns(enterprise_user_id: &str, table: Option<String>) -> (r: Result<
    CounterIncrement,
    ConfigError,
>)
    ensures
        match table {
            Some(t) => r is Ok && r->Ok_0@ == buns_increment(t@, enterprise_user_id@),
            None => r is Err && r->Err_0 is MissingConfiguration
                && r->Err_0->name@ == BUNS_TABLE_NAME@,
        },
{
    match get_env_var(BUNS_TABLE_NAME, table) {
        Ok(name) => Ok(
            CounterIncrement {
                table: name,
                key_name: "user_id".to_owned(),
                key_value: enterprise_user_id.to_owned(),
                field_name: "buns".to_owned(),
            },
        ),
        Err(e) => Err(e),
    }
}

} // verus!
