use cursor_pro_helper::auth::{
    default_usage_limit, parse_api_response, update_plan, AccountData, ApiResponse, AuthStore,
    TransactionError, TxFaults,
};

fn full_faults(step_faults: Vec<bool>, commit: bool) -> TxFaults {
    TxFaults { step_faults, commit }
}

#[test]
fn upsert_writes_all_four_keys() {
    let mut store = AuthStore::new();
    let ok = store.update_auth(
        Some("a@b.com".to_string()),
        Some("T1".to_string()),
        Some("T1".to_string()),
        &TxFaults::none(),
    );
    assert!(ok);
    assert_eq!(store.get("cursorAuth/cachedEmail").unwrap(), "a@b.com");
    assert_eq!(store.get("cursorAuth/accessToken").unwrap(), "T1");
    assert_eq!(store.get("cursorAuth/refreshToken").unwrap(), "T1");
    assert_eq!(store.get("cursorAuth/cachedSignUpType").unwrap(), "Auth_0");
}

#[test]
fn interrupted_transaction_changes_nothing() {
    let mut store = AuthStore::new();
    assert!(store.update_auth(
        Some("old@x.com".to_string()),
        Some("OLD".to_string()),
        Some("OLD".to_string()),
        &TxFaults::none(),
    ));

    // snapshot of all four keys
    let before = [
        store.get("cursorAuth/cachedEmail"),
        store.get("cursorAuth/accessToken"),
        store.get("cursorAuth/refreshToken"),
        store.get("cursorAuth/cachedSignUpType"),
    ];

    // a fault before the commit aborts the whole transaction
    let faults = full_faults(vec![false, false, true], false);
    let ok = store.update_auth(
        Some("new@x.com".to_string()),
        Some("NEW".to_string()),
        Some("NEW".to_string()),
        &faults,
    );
    assert!(!ok);
    let after = [
        store.get("cursorAuth/cachedEmail"),
        store.get("cursorAuth/accessToken"),
        store.get("cursorAuth/refreshToken"),
        store.get("cursorAuth/cachedSignUpType"),
    ];
    assert_eq!(before, after);
    assert_eq!(store.get("cursorAuth/cachedEmail").unwrap(), "old@x.com");

    // a commit fault aborts too
    let ok = store.update_auth(
        Some("new@x.com".to_string()),
        Some("NEW".to_string()),
        Some("NEW".to_string()),
        &full_faults(vec![], true),
    );
    assert!(!ok);
    assert_eq!(store.get("cursorAuth/accessToken").unwrap(), "OLD");
}

#[test]
fn update_plan_derives_the_right_pairs() {
    let plan = update_plan(&Some("e".to_string()), &None, &None);
    assert_eq!(plan.len(), 1);
    assert_eq!(plan[0], ("cursorAuth/cachedEmail".to_string(), "e".to_string()));

    let plan = update_plan(&None, &None, &Some("r".to_string()));
    assert_eq!(plan.len(), 2);
    assert_eq!(plan[0], ("cursorAuth/refreshToken".to_string(), "r".to_string()));
    assert_eq!(plan[1], ("cursorAuth/cachedSignUpType".to_string(), "Auth_0".to_string()));

    let plan = update_plan(&None, &Some("a".to_string()), &None);
    assert_eq!(plan.len(), 1);
    assert_eq!(plan[0].0, "cursorAuth/accessToken");
}

#[test]
fn account_validation_reports_missing_fields() {
    let missing_email = AccountData {
        email: String::new(),
        password: String::new(),
        token: "t".to_string(),
        user: String::new(),
        usage_limit: default_usage_limit(),
    };
    assert_eq!(missing_email.validate().unwrap_err(), "authConfig.errors.missingEmail");

    let missing_token = AccountData {
        email: "e@x.com".to_string(),
        password: String::new(),
        token: String::new(),
        user: String::new(),
        usage_limit: default_usage_limit(),
    };
    assert_eq!(missing_token.validate().unwrap_err(), "authConfig.errors.missingToken");
}

#[test]
fn response_validation_classifies_failures() {
    let no_accounts = ApiResponse {
        success: false,
        message: "No accounts available right now".to_string(),
        data: AccountData {
            email: String::new(),
            password: String::new(),
            token: String::new(),
            user: String::new(),
            usage_limit: default_usage_limit(),
        },
    };
    assert_eq!(no_accounts.validate().unwrap_err(), "authConfig.errors.noAccounts");

    let other = ApiResponse {
        success: false,
        message: "server exploded".to_string(),
        data: AccountData {
            email: String::new(),
            password: String::new(),
            token: String::new(),
            user: String::new(),
            usage_limit: default_usage_limit(),
        },
    };
    assert_eq!(other.validate().unwrap_err(), "authConfig.errors.apiError: server exploded");
}

#[test]
fn parse_api_response_reads_the_schema() {
    let body = "{\"success\": true, \"message\": \"ok\", \"data\": {\"email\": \"a@b.com\", \"token\": \"T\", \"extra\": 1}}";
    let resp = parse_api_response(body).unwrap();
    assert!(resp.success);
    assert_eq!(resp.message, "ok");
    assert_eq!(resp.data.email, "a@b.com");
    assert_eq!(resp.data.token, "T");
    assert_eq!(resp.data.password, "");
    assert_eq!(resp.data.user, "");
    assert_eq!(resp.data.usage_limit, "unlimited");
}

#[test]
fn parse_api_response_rejects_bad_bodies() {
    assert_eq!(parse_api_response("nope").unwrap_err(), "authConfig.errors.parseError");
    assert_eq!(
        parse_api_response("{\"success\": true}").unwrap_err(),
        "authConfig.errors.parseError"
    );
    assert_eq!(
        parse_api_response("{\"success\": 1, \"message\": \"m\", \"data\": {\"email\": \"e\", \"token\": \"t\"}}")
            .unwrap_err(),
        "authConfig.errors.parseError"
    );
}

#[test]
fn apply_updates_reports_the_transaction_error() {
    let mut store = AuthStore::new();
    let updates = update_plan(&Some("e".to_string()), &None, &None);
    let r = store.apply_updates(&updates, &full_faults(vec![true], false));
    assert_eq!(r, Err(TransactionError));
    assert!(store.get("cursorAuth/cachedEmail").is_none());
}

#[test]
fn default_usage_limit_is_unlimited() {
    assert_eq!(default_usage_limit(), "unlimited");
}
