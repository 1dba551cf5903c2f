use plaid_liabilities::client::{liabilities_outcome, classify_liabilities, Client, Environment, Secret};
use plaid_liabilities::error::ClientError;
use plaid_liabilities::json::{find_member, Json};
use plaid_liabilities::liabilities::{
    Account,
    InterestRate, LiabilitiesRequestOptions, LiabilitiesResponse, LoanStatus, Mortgage, RepaymentPlan,
};
use plaid_liabilities::schema::{opt_str, opt_u32, req_str, DecodeError};

const CREDIT: &str = r#"{"account_id": "acc-c", "aprs": {"apr_percentage": 15, "apr_type": "purchase_apr", "balance_subject_to_apr": 1200, "interest_charge_amount": null}, "is_overdue": false, "last_payment_amount": 168, "last_payment_date": "2019-05-22", "last_statement_balance": 1708, "last_statement_issue_date": "2019-05-28", "minimum_payment_amount": 20, "next_payment_due_date": "2020-05-28"}"#;

const MORTGAGE: &str = r#"{"account_id": "acc-m", "account_number": "3120194154", "current_late_fee": 25, "escrow_balance": 3141, "has_pml": true, "has_prepayment_penalty": true, "interest_rate": {"percentage": 4, "type": "fixed"}, "last_payment_amount": 3141, "last_payment_date": "2019-08-01", "loan_type_description": "conventional", "loan_term": "30 year", "maturity_date": "2045-07-31", "next_monthly_payment": 3141, "next_payment_due_date": "2019-11-15", "origination_date": "2015-08-01", "origination_principal_amount": 425000, "past_due_amount": 2304, "property_address": {"city": "Malakoff", "country": "US", "postal_code": "14236", "region": "NY", "street": "2992 Cameron Road"}, "ytd_interest_paid": 12300, "ytd_principal_paid": 12340}"#;

const STUDENT: &str = r#"{"account_id": "acc-s", "account_number": "4277075694", "disbursement_dates": "2002-08-28", "expected_payoff_date": "2032-07-28", "guarantor": "DEPT OF ED", "interest_rate_percentage": 5, "is_overdue": false, "last_payment_amount": 138, "last_payment_date": "2019-04-22", "last_statement_balance": null, "last_statement_issue_date": "2019-04-28", "loan_name": "Consolidation", "loan_status": {"end_date": "2032-07-28", "type": "repayment"}, "minimum_payment_amount": 25, "next_payment_due_date": "2019-05-28", "origination_date": "2002-08-28", "origination_principal_amount": 25000, "outstanding_interest_amount": 6227, "payment_reference_number": "4277075694", "pslf_status": {"estimated_eligibility_date": "2021-01-01", "payments_made": 200, "payments_remaining": 160}, "repayment_plan": {"description": "Standard Repayment", "type": "standard"}, "sequence_number": "1", "servicer_address": {"city": "San Matias", "country": "US", "postal_code": "99415", "region": "CA", "street": "123 Relaxation Road"}, "ytd_interest_paid": 280, "ytd_principal_paid": 271}"#;

fn body_with(accounts: &str, mortgage: &str, request_id: &str) -> String {
    format!(
        r#"{{{}"item": {{"item_id": "item-1", "institution_id": null}}, "liabilities": {{"credit": {}, "mortgage": {}, "student": {}, "request_id": "lia-req"}}{}}}"#,
        accounts, CREDIT, mortgage, STUDENT, request_id
    )
}

fn ok_response(body: &str) -> LiabilitiesResponse {
    match liabilities_outcome(200, body) {
        Ok(r) => r,
        Err(e) => panic!("expected a response, got {:?}", e),
    }
}

fn json_of(text: &str) -> Json {
    let v: serde_json::Value = serde_json::from_str(text).unwrap();
    to_json(v)
}

fn to_json(v: serde_json::Value) -> Json {
    match v {
        serde_json::Value::Null => Json::Null,
        serde_json::Value::Bool(b) => Json::Bool(b),
        serde_json::Value::Number(n) => Json::Number(n.as_u64()),
        serde_json::Value::String(s) => Json::Str(s),
        serde_json::Value::Array(a) => Json::Array(a.into_iter().map(to_json).collect()),
        serde_json::Value::Object(o) => Json::Object(o.into_iter().map(|(k, x)| (k, to_json(x))).collect()),
    }
}

#[test]
fn success_reply_gives_response() {
    let r = ok_response(&body_with(r#""accounts": [], "#, MORTGAGE, r#", "request_id": "abc123""#));
    assert_eq!(r.request_id, "abc123");
    assert!(r.accounts.is_empty());
    assert_eq!(r.item.item_id, "item-1");
    assert_eq!(r.item.institution_id, None);
    assert_eq!(r.liabilities.request_id, "lia-req");
    assert_eq!(r.liabilities.credit.aprs.apr_percentage, 15);
    assert_eq!(r.liabilities.credit.aprs.interest_charge_amount, None);
    assert_eq!(r.liabilities.credit.is_overdue, Some(false));
    assert_eq!(r.liabilities.mortgage.origination_principal_amount, Some(425000));
    assert_eq!(r.liabilities.mortgage.has_pml, Some(true));
    assert_eq!(r.liabilities.mortgage.property_address.city.as_deref(), Some("Malakoff"));
    assert_eq!(r.liabilities.student.last_statement_balance, None);
    assert_eq!(r.liabilities.student.pslf_status.payments_remaining, Some(160));
    assert_eq!(r.liabilities.student.servicer_address.street.as_deref(), Some("123 Relaxation Road"));
}

#[test]
fn renamed_type_fields_read_from_type_key() {
    let r = ok_response(&body_with("", MORTGAGE, r#", "request_id": "abc123""#));
    assert_eq!(r.liabilities.mortgage.interest_rate.interest_rate_type.as_deref(), Some("fixed"));
    assert_eq!(r.liabilities.mortgage.interest_rate.percentage, Some(4));
    assert_eq!(r.liabilities.student.loan_status.loan_status_type.as_deref(), Some("repayment"));
    assert_eq!(r.liabilities.student.repayment_plan.repaymentplan_type.as_deref(), Some("standard"));
}

#[test]
fn absent_accounts_read_as_empty() {
    let r = ok_response(&body_with("", MORTGAGE, r#", "request_id": "abc123""#));
    assert!(r.accounts.is_empty());
    let r = ok_response(&body_with(r#""accounts": null, "#, MORTGAGE, r#", "request_id": "abc123""#));
    assert!(r.accounts.is_empty());
}

#[test]
fn accounts_are_read_in_order() {
    let accounts = r#""accounts": [{"account_id": "a1", "mask": "0000", "name": "Plaid Checking", "official_name": null, "type": "depository", "subtype": "checking"}, {"account_id": "a2"}], "#;
    let r = ok_response(&body_with(accounts, MORTGAGE, r#", "request_id": "abc123""#));
    assert_eq!(r.accounts.len(), 2);
    assert_eq!(r.accounts[0].account_id, "a1");
    assert_eq!(r.accounts[0].account_type.as_deref(), Some("depository"));
    assert_eq!(r.accounts[0].official_name, None);
    assert_eq!(r.accounts[1].account_id, "a2");
    assert_eq!(r.accounts[1].mask, None);
}

#[test]
fn absent_optional_field_is_none_not_zero() {
    let mortgage = MORTGAGE.replace(r#", "ytd_principal_paid": 12340"#, "");
    let mortgage = mortgage.replace(r#""escrow_balance": 3141"#, r#""escrow_balance": null"#);
    let mortgage = mortgage.replace(r#""past_due_amount": 2304"#, r#""past_due_amount": 0"#);
    let r = ok_response(&body_with("", &mortgage, r#", "request_id": "abc123""#));
    assert_eq!(r.liabilities.mortgage.ytd_principal_paid, None);
    assert_eq!(r.liabilities.mortgage.escrow_balance, None);
    assert_eq!(r.liabilities.mortgage.past_due_amount, Some(0));
}

#[test]
fn failure_status_gives_api_error() {
    let body = r#"{"error_type": "INVALID_INPUT", "error_code": "INVALID_ACCESS_TOKEN", "error_message": "provided access token is in an invalid format", "request_id": "xyz"}"#;
    match liabilities_outcome(400, body) {
        Err(ClientError::Api(e)) => {
            assert_eq!(e.status, 400);
            let remote = e.remote.expect("the error payload");
            assert_eq!(remote.error_code.as_deref(), Some("INVALID_ACCESS_TOKEN"));
            assert_eq!(remote.error_type.as_deref(), Some("INVALID_INPUT"));
            assert_eq!(remote.request_id.as_deref(), Some("xyz"));
        },
        other => panic!("expected an API error, got {:?}", other.err()),
    }
}

#[test]
fn failure_status_with_unreadable_body_keeps_status() {
    match liabilities_outcome(503, "Service Unavailable") {
        Err(ClientError::Api(e)) => {
            assert_eq!(e.status, 503);
            assert!(e.remote.is_none());
        },
        other => panic!("expected an API error, got {:?}", other.err()),
    }
    match liabilities_outcome(404, r#"{"error_code": 7}"#) {
        Err(ClientError::Api(e)) => {
            assert_eq!(e.status, 404);
            assert!(e.remote.is_none());
        },
        other => panic!("expected an API error, got {:?}", other.err()),
    }
}

#[test]
fn missing_required_field_is_schema_error() {
    match liabilities_outcome(200, &body_with("", MORTGAGE, "")) {
        Err(ClientError::Schema(DecodeError::Missing(k))) => assert_eq!(k, "request_id"),
        other => panic!("expected a schema error, got {:?}", other.err()),
    }
    let mortgage = MORTGAGE.replace(r#""account_number": "3120194154", "#, "");
    match liabilities_outcome(200, &body_with("", &mortgage, r#", "request_id": "abc123""#)) {
        Err(ClientError::Schema(DecodeError::Missing(k))) => assert_eq!(k, "account_number"),
        other => panic!("expected a schema error, got {:?}", other.err()),
    }
}

#[test]
fn wrong_kind_of_value_is_schema_error() {
    let mortgage = MORTGAGE.replace(r#""has_pml": true"#, r#""has_pml": "yes""#);
    match liabilities_outcome(200, &body_with("", &mortgage, r#", "request_id": "abc123""#)) {
        Err(ClientError::Schema(DecodeError::WrongType(k))) => assert_eq!(k, "has_pml"),
        other => panic!("expected a schema error, got {:?}", other.err()),
    }
    let mortgage = MORTGAGE.replace(r#""interest_rate": {"percentage": 4, "type": "fixed"}"#, r#""interest_rate": 4"#);
    match liabilities_outcome(200, &body_with("", &mortgage, r#", "request_id": "abc123""#)) {
        Err(ClientError::Schema(DecodeError::WrongType(k))) => assert_eq!(k, "interest_rate"),
        other => panic!("expected a schema error, got {:?}", other.err()),
    }
}

#[test]
fn number_beyond_u32_is_schema_error() {
    let mortgage = MORTGAGE.replace(r#""escrow_balance": 3141"#, r#""escrow_balance": 4294967296"#);
    match liabilities_outcome(200, &body_with("", &mortgage, r#", "request_id": "abc123""#)) {
        Err(ClientError::Schema(DecodeError::WrongType(k))) => assert_eq!(k, "escrow_balance"),
        other => panic!("expected a schema error, got {:?}", other.err()),
    }
    let j = json_of(r#"{"n": 4294967295, "m": -1, "f": 1.5}"#);
    assert_eq!(opt_u32(&j, "n").ok(), Some(Some(4294967295)));
    assert!(matches!(opt_u32(&j, "m"), Err(DecodeError::WrongType(_))));
    assert!(matches!(opt_u32(&j, "f"), Err(DecodeError::WrongType(_))));
}

#[test]
fn success_status_with_non_json_body_is_malformed() {
    assert!(matches!(liabilities_outcome(200, "<html>"), Err(ClientError::Schema(DecodeError::Malformed))));
    assert!(matches!(liabilities_outcome(204, ""), Err(ClientError::Schema(DecodeError::Malformed))));
    assert!(matches!(liabilities_outcome(200, "[]"), Err(ClientError::Schema(DecodeError::NotAnObject))));
}

#[test]
fn classify_takes_parsed_body() {
    assert!(matches!(classify_liabilities(200, None), Err(ClientError::Schema(DecodeError::Malformed))));
    match classify_liabilities(401, Some(json_of(r#"{"error_code": "INVALID_API_KEYS", "request_id": "r9"}"#))) {
        Err(ClientError::Api(e)) => {
            assert_eq!(e.status, 401);
            let remote = e.remote.expect("the error payload");
            assert_eq!(remote.error_code.as_deref(), Some("INVALID_API_KEYS"));
            assert_eq!(remote.error_message, None);
            assert_eq!(remote.request_id.as_deref(), Some("r9"));
        },
        other => panic!("expected an API error, got {:?}", other.err()),
    }
    let body = body_with("", MORTGAGE, r#", "request_id": "abc123""#);
    match classify_liabilities(299, Some(json_of(&body))) {
        Ok(r) => assert_eq!(r.request_id, "abc123"),
        Err(e) => panic!("expected a response, got {:?}", e),
    }
}

#[test]
fn field_readers_treat_null_as_absent() {
    let j = json_of(r#"{"a": null, "b": "x", "c": 3}"#);
    assert_eq!(opt_str(&j, "a").ok(), Some(None));
    assert_eq!(opt_str(&j, "missing").ok(), Some(None));
    assert_eq!(opt_str(&j, "b").ok(), Some(Some("x".to_string())));
    assert!(matches!(opt_str(&j, "c"), Err(DecodeError::WrongType(_))));
    assert!(matches!(req_str(&j, "a"), Err(DecodeError::Missing(_))));
    assert!(find_member(&j, "a").is_none());
    assert!(find_member(&j, "c").is_some());
}

#[test]
fn type_key_survives_round_trip() {
    let j = json_of(r#"{"percentage": 4, "type": "fixed"}"#);
    let rate = InterestRate::from_json(&j).unwrap();
    let again = rate.to_json();
    assert!(matches!(find_member(&again, "type"), Some(Json::Str(s)) if s == "fixed"));
    assert!(find_member(&again, "interest_rate_type").is_none());
    let back = InterestRate::from_json(&again).unwrap();
    assert_eq!(back.interest_rate_type.as_deref(), Some("fixed"));
    assert_eq!(back.percentage, Some(4));

    let status = LoanStatus { end_date: None, loan_status_type: Some("repayment".to_string()) };
    let j = status.to_json();
    assert!(matches!(find_member(&j, "type"), Some(Json::Str(s)) if s == "repayment"));
    assert!(find_member(&j, "end_date").is_none());

    let plan = RepaymentPlan { description: Some("Standard".to_string()), repaymentplan_type: None };
    let j = plan.to_json();
    assert!(find_member(&j, "type").is_none());
    assert!(matches!(find_member(&j, "description"), Some(Json::Str(s)) if s == "Standard"));
}

#[test]
fn mortgage_reads_from_object_only() {
    assert!(matches!(Mortgage::from_json(&Json::Null), Err(DecodeError::NotAnObject)));
    assert!(Mortgage::from_json(&json_of(MORTGAGE)).is_ok());
}

#[test]
fn environments_have_distinct_base_urls() {
    assert_eq!(Environment::Sandbox.base_url(), "https://sandbox.plaid.com");
    assert_eq!(Environment::Development.base_url(), "https://development.plaid.com");
    assert_eq!(Environment::Production.base_url(), "https://production.plaid.com");
    assert_eq!(Environment::Production.name(), "production");
}

#[test]
fn clients_target_their_own_environment() {
    let a = Client::new("id".to_string(), Secret::new("sec".to_string()), Environment::Sandbox);
    let b = Client::new("id".to_string(), Secret::new("sec".to_string()), Environment::Production);
    assert_eq!(a.base_url(), "https://sandbox.plaid.com");
    assert_eq!(b.base_url(), "https://production.plaid.com");
    assert_eq!(a.liabilities_url(), "https://sandbox.plaid.com/liabilities/get");
    assert_eq!(b.liabilities_url(), "https://production.plaid.com/liabilities/get");
    assert_ne!(a.liabilities_url(), b.liabilities_url());
}

#[test]
fn request_body_writes_absent_account_ids_as_empty_array() {
    let c = Client::new("client-1".to_string(), Secret::new("s3cr3t".to_string()), Environment::Sandbox);
    let body = c.liabilities_body("access-sandbox-1", &LiabilitiesRequestOptions::default());
    assert_eq!(
        body,
        r#"{"access_token":"access-sandbox-1","client_id":"client-1","options":{"account_ids":[]},"secret":"s3cr3t"}"#
    );
}

#[test]
fn request_body_lists_given_account_ids() {
    let c = Client::new("client-1".to_string(), Secret::new("s3cr3t".to_string()), Environment::Development);
    let options = LiabilitiesRequestOptions { account_ids: Some(vec!["a1".to_string(), "a\"2".to_string()]) };
    let body = c.liabilities_body("tok", &options);
    let v: serde_json::Value = serde_json::from_str(&body).unwrap();
    assert_eq!(v["options"]["account_ids"][0], "a1");
    assert_eq!(v["options"]["account_ids"][1], "a\"2");
    assert_eq!(v["options"]["account_ids"].as_array().unwrap().len(), 2);
    assert_eq!(v["client_id"], "client-1");
    assert_eq!(v["secret"], "s3cr3t");
    assert_eq!(v["access_token"], "tok");
    let empty = LiabilitiesRequestOptions { account_ids: Some(vec![]) };
    let j = c.liabilities_request("tok", &empty);
    let opts = find_member(&j, "options").unwrap();
    assert!(matches!(find_member(opts, "account_ids"), Some(Json::Array(a)) if a.is_empty()));
}

#[test]
fn secret_exposes_its_text() {
    let s = Secret::new("s3cr3t".to_string());
    assert_eq!(s.expose(), "s3cr3t");
}

#[test]
fn account_type_key_survives_round_trip() {
    let j = json_of(r#"{"account_id": "a1", "mask": "0000", "name": null, "type": "credit", "subtype": "credit card"}"#);
    let account = Account::from_json(&j).unwrap();
    assert_eq!(account.account_type.as_deref(), Some("credit"));
    let again = account.to_json();
    assert!(matches!(find_member(&again, "type"), Some(Json::Str(s)) if s == "credit"));
    assert!(matches!(find_member(&again, "account_id"), Some(Json::Str(s)) if s == "a1"));
    assert!(matches!(find_member(&again, "subtype"), Some(Json::Str(s)) if s == "credit card"));
    assert!(find_member(&again, "name").is_none());
    let back = Account::from_json(&again).unwrap();
    assert_eq!(back.mask.as_deref(), Some("0000"));
    assert_eq!(back.official_name, None);
}
