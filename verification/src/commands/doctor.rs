//! The checks of the environment that need neither files nor other programs.

use crate::registry::embedded::bundled_prompts;
use crate::storage::database::Database;
use crate::text::{decimal, decimal_text};
use vstd::prelude::*;
use vstd::string::StringExecFns;

verus! {

/// How a check ended.
#[derive(Debug, Clone, Copy, PartialEq, Eq, Structural)]
pub enum CheckStatus {
    Pass,
    Warn,
    Fail,
}

/// A check and how it ended.
#[derive(Debug)]
pub struct Check {
    pub name: String,
    pub status: CheckStatus,
    pub message: String,
}

/// The word for a status.
pub fn status_name(status: CheckStatus) -> (name: &'static str)
    ensures
        name@ == match status {
            CheckStatus::Pass => "PASS"@,
            CheckStatus::Warn => "WARN"@,
            CheckStatus::Fail => "FAIL"@,
        },
{
    match status {
        CheckStatus::Pass => "PASS",
        CheckStatus::Warn => "WARN",
        CheckStatus::Fail => "FAIL",
    }
}

/// The sign for a status in a list.
pub fn status_symbol(status: CheckStatus) -> (symbol: &'static str)
    ensures
        symbol@ == match status {
            CheckStatus::Pass => "+"@,
            CheckStatus::Warn => "~"@,
            CheckStatus::Fail => "x"@,
        },
{
    match status {
        CheckStatus::Pass => "+",
        CheckStatus::Warn => "~",
        CheckStatus::Fail => "x",
    }
}

/// Whether every check passed.
pub fn all_passed(checks: &Vec<Check>) -> (passed: bool)
    ensures
        passed == (forall|i: int|
            0 <= i < checks.len() ==> (#[trigger] checks[i]).status == CheckStatus::Pass),
{
    let mut i: usize = 0;
    while i < checks.len()
        invariant
            i <= checks.len(),
            forall|k: int| 0 <= k < i ==> (#[trigger] checks[k]).status == CheckStatus::Pass,
        decreases checks.len() - i,
    {
        match checks[i].status {
            CheckStatus::Pass => {},
            _ => {
                return false;
            },
        }
        i += 1;
    }
    true
}

/// The check of a set of `count` bundled prompts: it passes with their
/// number, and fails where there is none.
pub fn check_prompt_count(count: usize) -> (check: Check)
    ensures
        check.name@ == "Bundled Prompts"@,
        check.status == if count == 0 {
            CheckStatus::Fail
        } else {
            CheckStatus::Pass
        },
        check.message@ == if count == 0 {
            "No bundled prompts found"@
        } else {
            decimal_text(count as nat) + " prompts available"@
        },
{
    if count == 0 {
        Check {
            name: "Bundled Prompts".to_string(),
            status: CheckStatus::Fail,
            message: "No bundled prompts found".to_string(),
        }
    } else {
        let mut message = decimal(count);
        message.append(" prompts available");
        Check { name: "Bundled Prompts".to_string(), status: CheckStatus::Pass, message }
    }
}

/// The check of the bundled prompts. It passes: there are eight.
pub fn check_bundled_prompts() -> (check: Check)
    ensures
        check.status == CheckStatus::Pass,
        check.message@ == decimal_text(8) + " prompts available"@,
{
    let prompts = bundled_prompts();
    check_prompt_count(prompts.len())
}

/// What the check of the database says: of one that opened, the number of
/// its prompts, 0 where they cannot be counted; of one that did not, the
/// reason.
pub open spec fn database_message(opened: Result<Option<nat>, Seq<char>>) -> Seq<char> {
    match opened {
        Ok(Some(n)) => "OK ("@ + decimal_text(n) + " prompts)"@,
        Ok(None) => "OK ("@ + decimal_text(0) + " prompts)"@,
        Err(reason) => "Failed to open: "@ + reason,
    }
}

/// What opening and counting brought, as plain values.
pub open spec fn opened_view(opened: Result<Option<usize>, String>) -> Result<
    Option<nat>,
    Seq<char>,
> {
    match opened {
        Ok(Some(n)) => Ok(Some(n as nat)),
        Ok(None) => Ok(None),
        Err(reason) => Err(reason@),
    }
}

/// The check of the database, by what opening it and counting its prompts
/// brought: the number of the prompts, or `None` where they could not be
/// counted, of a database that opened, and the reason of one that did not.
/// The check passes exactly where the database opened.
pub fn database_check(opened: &Result<Option<usize>, String>) -> (check: Check)
    ensures
        check.name@ == "Database"@,
        check.status == if opened is Ok {
            CheckStatus::Pass
        } else {
            CheckStatus::Fail
        },
        check.message@ == database_message(opened_view(*opened)),
{
    match opened {
        Ok(counted) => {
            let count: usize = match counted {
                Some(n) => *n,
                None => 0,
            };
            let mut message = "OK (".to_string();
            message.append(decimal(count).as_str());
            message.append(" prompts)");
            Check { name: "Database".to_string(), status: CheckStatus::Pass, message }
        },
        Err(reason) => {
            let mut message = "Failed to open: ".to_string();
            message.append(reason.as_str());
            Check { name: "Database".to_string(), status: CheckStatus::Fail, message }
        },
    }
}

/// The check of the database in the cache directory `cache_dir`: the
/// database is opened and its prompts are counted, and `database_check` says
/// what that comes to.
pub fn check_database(cache_dir: Option<&str>) -> (check: Check)
    ensures
        check.name@ == "Database"@,
        check.status == CheckStatus::Pass || check.status == CheckStatus::Fail,
{
    let opened = match Database::open(cache_dir) {
        Ok(db) => match db.prompt_count() {
            Ok(n) => Ok(Some(n)),
            Err(_) => Ok(None),
        },
        Err(e) => Err(e.message),
    };
    database_check(&opened)
}

} // verus!
