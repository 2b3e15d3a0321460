//! The rules the workspace store applies before it writes: names are stored
//! trimmed and validated, configurations are validated after trimming their
//! display name, and a saved database keeps its image tag, initial database
//! and user.
use crate::model::{
    config_rejection, decided_by, name_rejection, validate_name, AbstractConfig, DatabaseConfig,
    ModelError,
};
use crate::text::{trim, trimmed};
use vstd::prelude::*;

verus! {

/// The name a project is stored under: the trimmed name, once the name as
/// given passes validation.
pub fn project_name(name: &str) -> (r: Result<String, ModelError>)
    ensures
        decided_by(
            name_rejection(name@),
            match r {
                Ok(_) => Ok(()),
                Err(e) => Err(e),
            },
        ),
        r matches Ok(n) ==> n@ == trim(name@),
{
    match validate_name(name) {
        Err(e) => Err(e),
        Ok(()) => Ok(trimmed(name)),
    }
}

/// The configuration with its display name trimmed.
pub open spec fn with_trimmed_name(c: AbstractConfig) -> AbstractConfig {
    AbstractConfig { name: trim(c.name), ..c }
}

/// The configuration a database is stored with: the display name trimmed, then
/// the whole configuration validated.
pub fn prepared_config(config: DatabaseConfig) -> (r: Result<DatabaseConfig, ModelError>)
    ensures
        decided_by(
            config_rejection(with_trimmed_name(config@)),
            match r {
                Ok(_) => Ok(()),
                Err(e) => Err(e),
            },
        ),
        r matches Ok(c) ==> c@ == with_trimmed_name(config@),
{
    let mut config = config;
    config.name = trimmed(config.name.as_str());
    match config.validate() {
        Err(e) => Err(e),
        Ok(()) => Ok(config),
    }
}

/// An update keeps the image tag, the initial database and the user.
pub open spec fn same_identity(original: AbstractConfig, updated: AbstractConfig) -> bool {
    original.tag == updated.tag && original.database == updated.database && original.user
        == updated.user
}

pub fn keeps_identity(original: &DatabaseConfig, updated: &DatabaseConfig) -> (b: bool)
    ensures
        b == same_identity(original@, updated@),
{
    original.tag == updated.tag && original.database == updated.database && original.user
        == updated.user
}

/// The message for an update that changes the image tag, database or user.
pub fn identity_change_message() -> (m: String)
    ensures
        m@
            == "Image tag, initial database, and user cannot change on an existing database. Create a new database and use dump/restore to migrate."@,
{
    String::from_str(
        "Image tag, initial database, and user cannot change on an existing database. Create a new database and use dump/restore to migrate.",
    )
}

} // verus!
