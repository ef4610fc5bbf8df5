use ironclaw::budget::{
    account_status, user_account, AccountSnapshot, BudgetCommand, BudgetOperation, BudgetTarget,
    OpenStep, RebornBudgetAccountStatus, RebornBudgetAdminError,
};
use ironclaw::json::Json;

fn snapshot() -> AccountSnapshot {
    AccountSnapshot {
        account: "acct".to_string(),
        limits: Json::parse(r#"{"usd":1}"#),
        spent: Json::parse(r#"{"usd":2}"#),
        reserved: Json::parse(r#"{"usd":3}"#),
        period_start: "start".to_string(),
        period_end: "end".to_string(),
    }
}

fn target() -> BudgetTarget {
    BudgetTarget {
        database: "db".to_string(),
        tenant: "t".to_string(),
        user: "u".to_string(),
    }
}

#[test]
fn errors_read_as_their_kind() {
    let text = |e: RebornBudgetAdminError| e.message();
    assert_eq!(
        text(RebornBudgetAdminError::InvalidIdentity {
            field: "user id",
            reason: "empty".to_string()
        }),
        "invalid user id: empty"
    );
    assert_eq!(
        text(RebornBudgetAdminError::Database {
            reason: "x".to_string()
        }),
        "failed to open budget database: x"
    );
    assert_eq!(
        text(RebornBudgetAdminError::Storage {
            reason: "x".to_string()
        }),
        "failed to configure budget storage: x"
    );
    assert_eq!(
        text(RebornBudgetAdminError::AccountNotFound {
            account: "x".to_string()
        }),
        "budget account not found: x"
    );
    assert_eq!(
        text(RebornBudgetAdminError::Governor {
            reason: "x".to_string()
        }),
        "budget governor operation failed: x"
    );
}

#[test]
fn a_status_tells_the_figures_of_the_snapshot() {
    let s = RebornBudgetAccountStatus::from_snapshot(snapshot()).unwrap();
    assert_eq!(s.account, "acct");
    assert_eq!(s.limits.to_text(), r#"{"usd":1}"#);
    assert_eq!(s.spent.to_text(), r#"{"usd":2}"#);
    assert_eq!(s.reserved.to_text(), r#"{"usd":3}"#);
    assert_eq!((s.period_start.as_str(), s.period_end.as_str()), ("start", "end"));
}

#[test]
fn a_status_can_be_copied() {
    let s = RebornBudgetAccountStatus::from_snapshot(snapshot()).unwrap().clone();
    assert_eq!(s.account, "acct");
    assert_eq!(s.limits.to_text(), r#"{"usd":1}"#);
    assert_eq!(s.spent.to_text(), r#"{"usd":2}"#);
    assert_eq!(s.reserved.to_text(), r#"{"usd":3}"#);
    assert_eq!((s.period_start.as_str(), s.period_end.as_str()), ("start", "end"));
}

#[test]
fn the_first_bad_figure_is_reported() {
    let mut s = snapshot();
    s.spent = Err("spent".to_string());
    s.reserved = Err("reserved".to_string());
    assert!(matches!(
        RebornBudgetAccountStatus::from_snapshot(s),
        Err(RebornBudgetAdminError::Storage { reason }) if reason == "spent"
    ));
    let mut s = snapshot();
    s.limits = Err("limits".to_string());
    s.reserved = Err("reserved".to_string());
    assert!(matches!(
        RebornBudgetAccountStatus::from_snapshot(s),
        Err(RebornBudgetAdminError::Storage { reason }) if reason == "limits"
    ));
    let mut s = snapshot();
    s.reserved = Err("reserved".to_string());
    assert!(matches!(
        RebornBudgetAccountStatus::from_snapshot(s),
        Err(RebornBudgetAdminError::Storage { reason }) if reason == "reserved"
    ));
}

#[test]
fn governor_replies_become_statuses() {
    assert!(account_status("a".to_string(), Ok(Some(snapshot()))).is_ok());
    assert!(matches!(
        account_status("a".to_string(), Ok(None)),
        Err(RebornBudgetAdminError::AccountNotFound { account }) if account == "a"
    ));
    assert!(matches!(
        account_status("a".to_string(), Err("io".to_string())),
        Err(RebornBudgetAdminError::Governor { reason }) if reason == "io"
    ));
}

#[test]
fn opening_goes_through_its_steps() {
    let mut step = OpenStep::first();
    let mut errors = Vec::new();
    while step != OpenStep::Opened {
        errors.push(step.advance(Err("why".to_string())).unwrap_err().message());
        step = step.advance(Ok(())).unwrap();
    }
    assert_eq!(
        errors,
        vec![
            "failed to open budget database: why",
            "failed to configure budget storage: why",
            "failed to configure budget storage: why",
            "failed to configure budget storage: why",
            "budget governor operation failed: why",
        ]
    );
}

#[test]
fn ids_are_looked_at_tenant_first() {
    let a = user_account::<u8, u8>(Ok(1), Ok(2)).ok().unwrap();
    assert_eq!((a.tenant, a.user), (1, 2));
    let e = user_account::<u8, u8>(Err("t".to_string()), Err("u".to_string()));
    assert_eq!(e.err().unwrap().message(), "invalid tenant id: t");
    let e = user_account::<u8, u8>(Ok(1), Err("u".to_string()));
    assert_eq!(e.err().unwrap().message(), "invalid user id: u");
}

#[test]
fn resets_must_be_confirmed() {
    assert!(matches!(
        BudgetCommand::Status { target: target() }.execute(),
        Ok(BudgetOperation::Read { target }) if target.user == "u"
    ));
    assert!(matches!(
        BudgetCommand::ResetPeriod { target: target(), confirm_reset: true }.execute(),
        Ok(BudgetOperation::Reset { target }) if target.tenant == "t"
    ));
    assert_eq!(
        BudgetCommand::ResetPeriod { target: target(), confirm_reset: false }
            .execute()
            .unwrap_err(),
        "reset-period requires --confirm-reset"
    );
}
