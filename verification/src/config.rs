//! The settings of a deployment.

use crate::errors::Errors;
use crate::text::str_eq;
use std::str::FromStr;
use vstd::prelude::*;

verus! {

/// What `str::to_lowercase` makes of a text.
pub uninterp spec fn lowercased(text: Seq<char>) -> Seq<char>;

/// `str::to_lowercase` gives the lowercase form of a text as Unicode defines
/// it. The contract only gives the result its name: the same text has the
/// same lowercase form.
pub assume_specification[ str::to_lowercase ](text: &str) -> (lower: String)
    ensures
        lower@ == lowercased(text@),
;

/// Where the service runs.
#[derive(Debug, Clone, Copy, PartialEq, Eq, Structural)]
pub enum Stage {
    Local,
    Test,
    Prod,
}

impl Stage {
    /// The stage that a lowercase name stands for, if it is one of `local`,
    /// `test` and `prod`.
    pub open spec fn named(lower: Seq<char>) -> Option<Stage> {
        if lower == "local"@ {
            Some(Stage::Local)
        } else if lower == "test"@ {
            Some(Stage::Test)
        } else if lower == "prod"@ {
            Some(Stage::Prod)
        } else {
            None
        }
    }

    /// What parsing comes to, given the lowercase form of the name.
    pub open spec fn parsed(lower: Seq<char>) -> Result<Stage, Errors> {
        match Stage::named(lower) {
            Some(stage) => Ok(stage),
            None => Err(Errors::StageParseError),
        }
    }

    /// The stage of a name that is already in lowercase. Any text but
    /// `local`, `test` and `prod` is turned down.
    pub fn from_lowercase(lower: &str) -> (stage: Result<Stage, Errors>)
        ensures
            stage == Stage::parsed(lower@),
    {
        if str_eq(lower, "local") {
            Ok(Stage::Local)
        } else if str_eq(lower, "test") {
            Ok(Stage::Test)
        } else if str_eq(lower, "prod") {
            Ok(Stage::Prod)
        } else {
            Err(Errors::StageParseError)
        }
    }

    /// The stage of a name, whatever the case of its letters.
    pub fn parse(name: &str) -> (stage: Result<Stage, Errors>)
        ensures
            stage == Stage::parsed(lowercased(name@)),
    {
        let lower = name.to_lowercase();
        Stage::from_lowercase(lower.as_str())
    }
}

/// Parsing with `str::parse` goes by [`Stage::parse`].
impl FromStr for Stage {
    type Err = Errors;

    /// The stage of a name, whatever the case of its letters; any name but
    /// those of the three stages is turned down.
    fn from_str(name: &str) -> (stage: Result<Stage, Errors>)
        ensures
            stage == Stage::parsed(lowercased(name@)),
    {
        Stage::parse(name)
    }
}

/// The settings that the service starts with.
#[derive(Debug)]
pub struct Config {
    pub db_url: String,
    pub db_token: Option<String>,
    pub stage: Stage,
}

impl Config {
    /// The settings made of the three values that the surroundings supply.
    /// They are taken as they are, but for the stage, which has to be the
    /// name of one.
    pub fn from_values(db_url: String, db_token: String, stage: &str) -> (config: Result<
        Config,
        Errors,
    >)
        ensures
            config is Ok <==> Stage::parsed(lowercased(stage@)) is Ok,
            config matches Ok(settings) ==> settings.db_url == db_url && settings.db_token == Some(
                db_token,
            ) && Ok::<Stage, Errors>(settings.stage) == Stage::parsed(lowercased(stage@)),
            config matches Err(fault) ==> fault == Errors::StageParseError,
    {
        match Stage::parse(stage) {
            Ok(stage) => Ok(Config { db_url, db_token: Some(db_token), stage }),
            Err(fault) => Err(fault),
        }
    }
}

} // verus!
