use condition_oracle::Contract;
use condition_oracle::CallContext;
use condition_oracle::OracleError;
use condition_oracle::Role;
use condition_oracle::policy::is_administrator;
use condition_oracle::policy::is_reporter;
use condition_oracle::policy::role_of;
use condition_oracle::oracle::DEFAULT_MATURITY;

#[test]
fn test_get_default_temperature() {
    let contract = Contract::default();
    assert_eq!(contract.get_temperature(), 0);
    assert_eq!(contract.get_cutoff_temperature(), 3000); // 30.00 degrees
}

#[test]
fn test_set_then_get_temperature() {
    let weatherman = "weatherman.near".to_string();
    let ctx = CallContext {
        predecessor_account_id: weatherman.clone(),
        current_account_id: "oracle.near".to_string(),
        block_timestamp: 0,
    };

    let mut contract = Contract::new(weatherman, 3000); // Cutoff at 30.00 degrees

    // Set temperature to 25.50 degrees (2550)
    let r = contract.set_temperature(&ctx, 2550);
    assert!(r.is_ok());
    assert_eq!(contract.get_temperature(), 2550);
}

#[test]
fn test_temperature_cutoff_comparison() {
    let weatherman = "weatherman.near".to_string();
    let reporter_ctx = CallContext {
        predecessor_account_id: weatherman.clone(),
        current_account_id: "oracle.near".to_string(),
        block_timestamp: 0,
    };
    let admin_ctx = CallContext {
        predecessor_account_id: "oracle.near".to_string(),
        current_account_id: "oracle.near".to_string(),
        block_timestamp: 0,
    };

    let mut contract = Contract::new(weatherman, 2500); // Cutoff at 25.00 degrees

    // Set temperature to 26.50 degrees (2650) - above cutoff
    assert!(contract.set_temperature(&reporter_ctx, 2650).is_ok());
    assert!(contract.is_above_cutoff());

    // Set temperature to 24.50 degrees (2450) - below cutoff
    assert!(contract.set_temperature(&reporter_ctx, 2450).is_ok());
    assert!(!contract.is_above_cutoff());

    // Change cutoff to 24.00 degrees (2400)
    assert!(contract.set_cutoff_temperature(&admin_ctx, 2400).is_ok());
    assert!(contract.is_above_cutoff()); // 24.50 degrees now above cutoff
}

#[test]
fn test_new_initial_state() {
    let contract = Contract::new("weatherman.near".to_string(), 2500);
    assert_eq!(contract.get_temperature(), 0);
    assert_eq!(contract.get_cutoff_temperature(), 2500);
    assert_eq!(contract.get_weatherman(), "weatherman.near".to_string());
    assert_eq!(contract.get_maturity_date(), DEFAULT_MATURITY);
    assert_eq!(contract.get_maturity_date(), 1_730_394_000_000_000_000);
}

#[test]
fn test_set_temperature_unauthorized_rejected() {
    let unauthorized_ctx = CallContext {
        predecessor_account_id: "unauthorized.near".to_string(),
        current_account_id: "oracle.near".to_string(),
        block_timestamp: 0,
    };
    let mut contract = Contract::new("weatherman.near".to_string(), 3000);
    let r = contract.set_temperature(&unauthorized_ctx, 2550);
    assert_eq!(r, Err(OracleError::Unauthorized));
    assert_eq!(contract.get_temperature(), 0);
}

#[test]
fn test_set_temperature_admin_is_not_reporter() {
    // Even the administrator may not report the temperature.
    let admin_ctx = CallContext {
        predecessor_account_id: "oracle.near".to_string(),
        current_account_id: "oracle.near".to_string(),
        block_timestamp: 0,
    };
    let mut contract = Contract::new("weatherman.near".to_string(), 3000);
    let r = contract.set_temperature(&admin_ctx, 2550);
    assert_eq!(r, Err(OracleError::Unauthorized));
    assert_eq!(contract.get_temperature(), 0);
}

#[test]
fn test_set_cutoff_unauthorized_rejected() {
    let unauthorized_ctx = CallContext {
        predecessor_account_id: "unauthorized.near".to_string(),
        current_account_id: "oracle.near".to_string(),
        block_timestamp: 0,
    };
    let mut contract = Contract::new("weatherman.near".to_string(), 2500);
    let r = contract.set_cutoff_temperature(&unauthorized_ctx, 3000);
    assert_eq!(r, Err(OracleError::Unauthorized));
    assert_eq!(contract.get_cutoff_temperature(), 2500);
}

#[test]
fn test_set_cutoff_reporter_rejected() {
    // The reporter is not the administrator; the threshold stays.
    let reporter_ctx = CallContext {
        predecessor_account_id: "weatherman.near".to_string(),
        current_account_id: "oracle.near".to_string(),
        block_timestamp: 0,
    };
    let mut contract = Contract::new("weatherman.near".to_string(), 2500);
    let r = contract.set_cutoff_temperature(&reporter_ctx, 3000);
    assert_eq!(r, Err(OracleError::Unauthorized));
    assert_eq!(contract.get_cutoff_temperature(), 2500);
}

#[test]
fn test_set_maturity_date_admin_only() {
    let admin_ctx = CallContext {
        predecessor_account_id: "oracle.near".to_string(),
        current_account_id: "oracle.near".to_string(),
        block_timestamp: 0,
    };
    let other_ctx = CallContext {
        predecessor_account_id: "someone.near".to_string(),
        current_account_id: "oracle.near".to_string(),
        block_timestamp: 0,
    };
    let mut contract = Contract::new("weatherman.near".to_string(), 2500);
    assert_eq!(contract.set_maturity_date(&other_ctx, 7), Err(OracleError::Unauthorized));
    assert_eq!(contract.get_maturity_date(), DEFAULT_MATURITY);
    assert!(contract.set_maturity_date(&admin_ctx, 7).is_ok());
    assert_eq!(contract.get_maturity_date(), 7);
    // A deadline of zero is legal.
    assert!(contract.set_maturity_date(&admin_ctx, 0).is_ok());
    assert_eq!(contract.get_maturity_date(), 0);
}

#[test]
fn test_is_matured_against_deadline() {
    let contract = Contract::new("weatherman.near".to_string(), 2500);
    let before = CallContext {
        predecessor_account_id: "anyone.near".to_string(),
        current_account_id: "oracle.near".to_string(),
        block_timestamp: DEFAULT_MATURITY - 1,
    };
    let at = CallContext {
        predecessor_account_id: "anyone.near".to_string(),
        current_account_id: "oracle.near".to_string(),
        block_timestamp: DEFAULT_MATURITY,
    };
    assert!(!contract.is_matured(&before));
    assert!(contract.is_matured(&at));
}

#[test]
fn test_role_of() {
    let reporter = "weatherman.near".to_string();
    let admin_ctx = CallContext {
        predecessor_account_id: "oracle.near".to_string(),
        current_account_id: "oracle.near".to_string(),
        block_timestamp: 0,
    };
    let reporter_ctx = CallContext {
        predecessor_account_id: "weatherman.near".to_string(),
        current_account_id: "oracle.near".to_string(),
        block_timestamp: 0,
    };
    let other_ctx = CallContext {
        predecessor_account_id: "someone.near".to_string(),
        current_account_id: "oracle.near".to_string(),
        block_timestamp: 0,
    };
    assert_eq!(role_of(&admin_ctx, &reporter), Role::Administrator);
    assert_eq!(role_of(&reporter_ctx, &reporter), Role::Reporter);
    assert_eq!(role_of(&other_ctx, &reporter), Role::Other);
    assert!(is_administrator(&admin_ctx));
    assert!(!is_administrator(&reporter_ctx));
    assert!(is_reporter(&reporter_ctx, &reporter));
    assert!(!is_reporter(&admin_ctx, &reporter));
}

#[test]
fn test_error_messages() {
    assert_eq!(
        OracleError::Unauthorized.message(),
        "caller is not authorized for this operation"
    );
    assert_eq!(OracleError::InvalidPayload.message(), "payload is not valid hex");
    assert_eq!(OracleError::AlreadyMatured.message(), "contract is matured");
    assert_eq!(OracleError::NotYetMatured.message(), "contract is not yet matured");
    assert_eq!(OracleError::ConditionNotMet.message(), "temperature is below the cutoff");
}
