//! Budget administration: what an operator asks for, and what the storage's
//! replies lead to.
use vstd::prelude::*;

use crate::json::Json;
use crate::text::{joined, joined3};

verus! {

/// Where the budget accounts are stored.
pub const SYSTEM_RESOURCES_PATH: &'static str = "/tenants/__system__/users/__system__/resources";

/// The name under which the storage is mounted.
pub const RESOURCES_ALIAS: &'static str = "/resources";

/// The tenant where none is given.
pub const DEFAULT_TENANT: &'static str = "reborn-cli";

/// Why an operation on a budget account failed.
#[derive(Debug)]
pub enum RebornBudgetAdminError {
    InvalidIdentity { field: &'static str, reason: String },
    Database { reason: String },
    Storage { reason: String },
    AccountNotFound { account: String },
    Governor { reason: String },
}

impl RebornBudgetAdminError {
    /// How the error reads.
    pub open spec fn text(self) -> Seq<char> {
        match self {
            RebornBudgetAdminError::InvalidIdentity { field, reason } => "invalid "@ + field@
                + ": "@ + reason@,
            RebornBudgetAdminError::Database { reason } => "failed to open budget database: "@
                + reason@,
            RebornBudgetAdminError::Storage { reason } => "failed to configure budget storage: "@
                + reason@,
            RebornBudgetAdminError::AccountNotFound { account } => "budget account not found: "@
                + account@,
            RebornBudgetAdminError::Governor { reason } => "budget governor operation failed: "@
                + reason@,
        }
    }

    /// How the error reads.
    pub fn message(&self) -> (r: String)
        ensures
            r@ == self.text(),
    {
        match self {
            RebornBudgetAdminError::InvalidIdentity { field, reason } => {
                let head = joined3("invalid ", *field, ": ");
                joined(head.as_str(), reason.as_str())
            },
            RebornBudgetAdminError::Database { reason } => joined(
                "failed to open budget database: ",
                reason.as_str(),
            ),
            RebornBudgetAdminError::Storage { reason } => joined(
                "failed to configure budget storage: ",
                reason.as_str(),
            ),
            RebornBudgetAdminError::AccountNotFound { account } => joined(
                "budget account not found: ",
                account.as_str(),
            ),
            RebornBudgetAdminError::Governor { reason } => joined(
                "budget governor operation failed: ",
                reason.as_str(),
            ),
        }
    }
}

/// An account as the governor holds it: each figure as a document, or why it
/// could not be written as one.
pub struct AccountSnapshot {
    pub account: String,
    pub limits: Result<Json, String>,
    pub spent: Result<Json, String>,
    pub reserved: Result<Json, String>,
    pub period_start: String,
    pub period_end: String,
}

/// What an operator is told of an account.
#[derive(Debug)]
pub struct RebornBudgetAccountStatus {
    pub account: String,
    pub limits: Json,
    pub period_start: String,
    pub period_end: String,
    pub spent: Json,
    pub reserved: Json,
}

/// What became of a figure, as part of a status.
pub open spec fn figure(document: Result<Json, String>) -> Result<Json, RebornBudgetAdminError> {
    match document {
        Ok(j) => Ok(j),
        Err(reason) => Err(RebornBudgetAdminError::Storage { reason }),
    }
}

impl RebornBudgetAccountStatus {
    /// What is told of a snapshot, or why nothing can be: the first of the
    /// limits, the spent and the reserved amounts that is no document.
    pub open spec fn of(snapshot: AccountSnapshot) -> Result<Self, RebornBudgetAdminError> {
        match (figure(snapshot.limits), figure(snapshot.spent), figure(snapshot.reserved)) {
            (Err(e), _, _) => Err(e),
            (_, Err(e), _) => Err(e),
            (_, _, Err(e)) => Err(e),
            (Ok(limits), Ok(spent), Ok(reserved)) => Ok(
                RebornBudgetAccountStatus {
                    account: snapshot.account,
                    limits,
                    period_start: snapshot.period_start,
                    period_end: snapshot.period_end,
                    spent,
                    reserved,
                },
            ),
        }
    }

    /// What is told of a snapshot.
    pub fn from_snapshot(snapshot: AccountSnapshot) -> (r: Result<Self, RebornBudgetAdminError>)
        ensures
            r == RebornBudgetAccountStatus::of(snapshot),
    {
        let limits = match snapshot.limits {
            Ok(j) => j,
            Err(reason) => {
                return Err(RebornBudgetAdminError::Storage { reason });
            },
        };
        let spent = match snapshot.spent {
            Ok(j) => j,
            Err(reason) => {
                return Err(RebornBudgetAdminError::Storage { reason });
            },
        };
        let reserved = match snapshot.reserved {
            Ok(j) => j,
            Err(reason) => {
                return Err(RebornBudgetAdminError::Storage { reason });
            },
        };
        Ok(
            RebornBudgetAccountStatus {
                account: snapshot.account,
                limits,
                period_start: snapshot.period_start,
                period_end: snapshot.period_end,
                spent,
                reserved,
            },
        )
    }
}

impl Clone for RebornBudgetAccountStatus {
    fn clone(&self) -> (r: Self)
        ensures
            r.account@ == self.account@,
            r.limits@ == self.limits@,
            r.period_start@ == self.period_start@,
            r.period_end@ == self.period_end@,
            r.spent@ == self.spent@,
            r.reserved@ == self.reserved@,
    {
        RebornBudgetAccountStatus {
            account: self.account.clone(),
            limits: self.limits.clone(),
            period_start: self.period_start.clone(),
            period_end: self.period_end.clone(),
            spent: self.spent.clone(),
            reserved: self.reserved.clone(),
        }
    }
}

/// The steps of opening a budget database, in order.
#[derive(Debug, Clone, Copy, PartialEq, Eq, Structural)]
pub enum OpenStep {
    /// Build the database handle.
    Database,
    /// Check the name under which the storage is mounted.
    Alias,
    /// Check the path of the storage.
    Path,
    /// Put the mount together.
    Mount,
    /// Load what the governor must know before it can answer.
    Warm,
    Opened,
}

impl OpenStep {
    /// The error that a failed step is.
    pub open spec fn error(self, reason: String) -> RebornBudgetAdminError {
        match self {
            OpenStep::Database => RebornBudgetAdminError::Database { reason },
            OpenStep::Alias | OpenStep::Path | OpenStep::Mount => RebornBudgetAdminError::Storage {
                reason,
            },
            OpenStep::Warm | OpenStep::Opened => RebornBudgetAdminError::Governor { reason },
        }
    }

    /// The step behind this one.
    pub open spec fn next(self) -> OpenStep {
        match self {
            OpenStep::Database => OpenStep::Alias,
            OpenStep::Alias => OpenStep::Path,
            OpenStep::Path => OpenStep::Mount,
            OpenStep::Mount => OpenStep::Warm,
            OpenStep::Warm => OpenStep::Opened,
            OpenStep::Opened => OpenStep::Opened,
        }
    }

    /// The first step.
    pub fn first() -> (r: OpenStep)
        ensures
            r == OpenStep::Database,
    {
        OpenStep::Database
    }

    /// Goes on after a step with the given outcome.
    pub fn advance(self, outcome: Result<(), String>) -> (r: Result<
        OpenStep,
        RebornBudgetAdminError,
    >)
        ensures
            r == (match outcome {
                Ok(_) => Ok::<OpenStep, RebornBudgetAdminError>(self.next()),
                Err(reason) => Err::<OpenStep, RebornBudgetAdminError>(self.error(reason)),
            }),
    {
        match outcome {
            Ok(_) => Ok(
                match self {
                    OpenStep::Database => OpenStep::Alias,
                    OpenStep::Alias => OpenStep::Path,
                    OpenStep::Path => OpenStep::Mount,
                    OpenStep::Mount => OpenStep::Warm,
                    OpenStep::Warm => OpenStep::Opened,
                    OpenStep::Opened => OpenStep::Opened,
                },
            ),
            Err(reason) => Err(
                match self {
                    OpenStep::Database => RebornBudgetAdminError::Database { reason },
                    OpenStep::Alias => RebornBudgetAdminError::Storage { reason },
                    OpenStep::Path => RebornBudgetAdminError::Storage { reason },
                    OpenStep::Mount => RebornBudgetAdminError::Storage { reason },
                    OpenStep::Warm => RebornBudgetAdminError::Governor { reason },
                    OpenStep::Opened => RebornBudgetAdminError::Governor { reason },
                },
            ),
        }
    }
}

/// A user's account, by a tenant id and a user id that were found valid.
pub struct UserAccount<T, U> {
    pub tenant: T,
    pub user: U,
}

/// The account of a user. Each id comes as it was found valid, or with the
/// reason why it is not; the tenant's is looked at first.
pub fn user_account<T, U>(tenant: Result<T, String>, user: Result<U, String>) -> (r: Result<
    UserAccount<T, U>,
    RebornBudgetAdminError,
>)
    ensures
        match (tenant, user) {
            (Err(why), _) => {
                &&& r matches Err(RebornBudgetAdminError::InvalidIdentity { field, reason })
                &&& field@ == "tenant id"@
                &&& reason == why
            },
            (Ok(_), Err(why)) => {
                &&& r matches Err(RebornBudgetAdminError::InvalidIdentity { field, reason })
                &&& field@ == "user id"@
                &&& reason == why
            },
            (Ok(tenant), Ok(user)) => r == Ok::<UserAccount<T, U>, RebornBudgetAdminError>(
                UserAccount { tenant, user },
            ),
        },
{
    match tenant {
        Err(reason) => Err(
            RebornBudgetAdminError::InvalidIdentity { field: "tenant id", reason },
        ),
        Ok(tenant) => match user {
            Err(reason) => Err(
                RebornBudgetAdminError::InvalidIdentity { field: "user id", reason },
            ),
            Ok(user) => Ok(UserAccount { tenant, user }),
        },
    }
}

/// What an operator is told once the governor was asked to read an account, or
/// to reset its period: the reply is the account as it is now, nothing where
/// there is no such account, or why the governor failed.
pub fn account_status(
    account: String,
    reply: Result<Option<AccountSnapshot>, String>,
) -> (r: Result<RebornBudgetAccountStatus, RebornBudgetAdminError>)
    ensures
        r == (match reply {
            Err(reason) => Err::<RebornBudgetAccountStatus, RebornBudgetAdminError>(
                RebornBudgetAdminError::Governor { reason },
            ),
            Ok(None) => Err::<RebornBudgetAccountStatus, RebornBudgetAdminError>(
                RebornBudgetAdminError::AccountNotFound { account },
            ),
            Ok(Some(snapshot)) => RebornBudgetAccountStatus::of(snapshot),
        }),
{
    match reply {
        Err(reason) => Err(RebornBudgetAdminError::Governor { reason }),
        Ok(None) => Err(RebornBudgetAdminError::AccountNotFound { account }),
        Ok(Some(snapshot)) => RebornBudgetAccountStatus::from_snapshot(snapshot),
    }
}

/// Whose account is meant, and in which database.
#[derive(Debug)]
pub struct BudgetTarget {
    pub database: String,
    pub tenant: String,
    pub user: String,
}

/// What an operator asks for.
#[derive(Debug)]
pub enum BudgetCommand {
    /// Read an account.
    Status { target: BudgetTarget },
    /// Clear the period usage of an account; limits and reservations stay.
    ResetPeriod { target: BudgetTarget, confirm_reset: bool },
}

/// What is to be done in the database.
#[derive(Debug)]
pub enum BudgetOperation {
    Read { target: BudgetTarget },
    Reset { target: BudgetTarget },
}

impl BudgetCommand {
    /// What a command comes to: a reset only if it is confirmed.
    pub fn execute(self) -> (r: Result<BudgetOperation, String>)
        ensures
            match self {
                BudgetCommand::Status { target } => r == Ok::<BudgetOperation, String>(
                    BudgetOperation::Read { target },
                ),
                BudgetCommand::ResetPeriod { target, confirm_reset: true } => r == Ok::<
                    BudgetOperation,
                    String,
                >(BudgetOperation::Reset { target }),
                BudgetCommand::ResetPeriod { target, confirm_reset: false } => {
                    &&& r matches Err(e)
                    &&& e@ == "reset-period requires --confirm-reset"@
                },
            },
    {
        match self {
            BudgetCommand::Status { target } => Ok(BudgetOperation::Read { target }),
            BudgetCommand::ResetPeriod { target, confirm_reset } => {
                if !confirm_reset {
                    return Err("reset-period requires --confirm-reset".to_owned());
                }
                Ok(BudgetOperation::Reset { target })
            },
        }
    }
}

/// A status tells the figures of the snapshot as they are: none is changed,
/// left out or exchanged for another.
pub proof fn law_status_tells_the_snapshot(snapshot: AccountSnapshot)
    ensures
        RebornBudgetAccountStatus::of(snapshot) matches Ok(status) ==> {
            &&& snapshot.limits == Ok::<Json, String>(status.limits)
            &&& snapshot.spent == Ok::<Json, String>(status.spent)
            &&& snapshot.reserved == Ok::<Json, String>(status.reserved)
            &&& status.account == snapshot.account
            &&& status.period_start == snapshot.period_start
            &&& status.period_end == snapshot.period_end
        },
        RebornBudgetAccountStatus::of(snapshot) is Ok <==> (snapshot.limits is Ok
            && snapshot.spent is Ok && snapshot.reserved is Ok),
{
}

/// An error reads as what failed and why: the reason stands at the end, in
/// full, and nothing but the kind decides what stands before it.
pub proof fn law_errors_tell_their_reason(reason: String, field: &'static str)
    ensures
        (RebornBudgetAdminError::InvalidIdentity { field, reason }).text() == "invalid "@ + field@
            + ": "@ + reason@,
        (RebornBudgetAdminError::Database { reason }).text() == "failed to open budget database: "@
            + reason@,
        (RebornBudgetAdminError::Storage { reason }).text()
            == "failed to configure budget storage: "@ + reason@,
        (RebornBudgetAdminError::AccountNotFound { account: reason }).text()
            == "budget account not found: "@ + reason@,
        (RebornBudgetAdminError::Governor { reason }).text()
            == "budget governor operation failed: "@ + reason@,
{
}

/// A snapshot that cannot be told of fails the storage, with the reason of the
/// first of its limits, its spent and its reserved amounts that is no document.
pub proof fn law_the_first_missing_figure_is_the_reason(snapshot: AccountSnapshot)
    ensures
        ({
            let told = RebornBudgetAccountStatus::of(snapshot);
            &&& snapshot.limits matches Err(why) ==> (told matches Err(
                RebornBudgetAdminError::Storage { reason },
            ) && reason == why)
            &&& snapshot.limits is Ok ==> (snapshot.spent matches Err(why) ==> (told matches Err(
                RebornBudgetAdminError::Storage { reason },
            ) && reason == why))
            &&& snapshot.limits is Ok && snapshot.spent is Ok ==> (snapshot.reserved matches Err(
                why,
            ) ==> (told matches Err(RebornBudgetAdminError::Storage { reason }) && reason == why))
        }),
{
}

/// Opening takes five steps, in this order: the database, the alias, the path,
/// the mount and the warming. What is open stays open.
pub proof fn law_opening_takes_five_steps()
    ensures
        OpenStep::Database.next() == OpenStep::Alias,
        OpenStep::Database.next().next() == OpenStep::Path,
        OpenStep::Database.next().next().next() == OpenStep::Mount,
        OpenStep::Database.next().next().next().next() == OpenStep::Warm,
        OpenStep::Database.next().next().next().next().next() == OpenStep::Opened,
        OpenStep::Opened.next() == OpenStep::Opened,
{
}

/// A step that fails is an error of the database where that is built, of the
/// storage where it is named or mounted, and of the governor where that is
/// warmed, each time with the reason that was given.
pub proof fn law_failed_steps_tell_what_failed(step: OpenStep, reason: String)
    ensures
        step == OpenStep::Database <==> step.error(reason) is Database,
        step == OpenStep::Alias || step == OpenStep::Path || step == OpenStep::Mount
            <==> step.error(reason) is Storage,
        step == OpenStep::Warm ==> step.error(reason) is Governor,
        match step.error(reason) {
            RebornBudgetAdminError::Database { reason: why } => why == reason,
            RebornBudgetAdminError::Storage { reason: why } => why == reason,
            RebornBudgetAdminError::Governor { reason: why } => why == reason,
            _ => false,
        },
{
}

}
