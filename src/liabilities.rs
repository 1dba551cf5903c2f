//! The data model of the liabilities endpoint: the options of a request, the
//! response and every entity nested in it, each with a decoder from JSON.
//! A field that the service may leave out or send as `null` is an `Option`,
//! so that an absent value never reads as a zero or an empty string.

use vstd::prelude::*;
use crate::json::{Json, member, lookup, find_member, lemma_lookup_first};
use crate::schema::{
    DecodeError, opt_view, str_at, u32_at, bool_at, opt_str_ok, opt_u32_ok, opt_bool_ok, opt_str,
    req_str, opt_u32, req_u32, opt_bool, req_object,
};

verus! {

/// An annual percentage rate of a credit account.
#[derive(Clone, Debug)]
pub struct Aprs {
    pub apr_percentage: u32,
    pub apr_type: String,
    pub balance_subject_to_apr: Option<u32>,
    pub interest_charge_amount: Option<u32>,
}

/// `j` is an object with the fields of an `Aprs`.
pub open spec fn aprs_ok(j: Json) -> bool {
    &&& j is Object
    &&& u32_at(j, "apr_percentage"@) is Some
    &&& str_at(j, "apr_type"@) is Some
    &&& opt_u32_ok(j, "balance_subject_to_apr"@)
    &&& opt_u32_ok(j, "interest_charge_amount"@)
}

/// `x` holds the fields of the object `j`.
pub open spec fn aprs_from(j: Json, x: Aprs) -> bool {
    &&& u32_at(j, "apr_percentage"@) == Some(x.apr_percentage)
    &&& str_at(j, "apr_type"@) == Some(x.apr_type@)
    &&& u32_at(j, "balance_subject_to_apr"@) == x.balance_subject_to_apr
    &&& u32_at(j, "interest_charge_amount"@) == x.interest_charge_amount
}

impl Aprs {
    /// Reads an `Aprs` from a JSON object.
    pub fn from_json(j: &Json) -> (r: Result<Aprs, DecodeError>)
        ensures
            r is Ok <==> aprs_ok(*j),
            r matches Ok(x) ==> aprs_from(*j, x),
            !(*j is Object) ==> r matches Err(DecodeError::NotAnObject),
    {
        if !(matches!(j, Json::Object(_))) {
            return Err(DecodeError::NotAnObject);
        }
        let apr_percentage = match req_u32(j, "apr_percentage") {
            Ok(v) => v,
            Err(e) => return Err(e),
        };
        let apr_type = match req_str(j, "apr_type") {
            Ok(v) => v,
            Err(e) => return Err(e),
        };
        let balance_subject_to_apr = match opt_u32(j, "balance_subject_to_apr") {
            Ok(v) => v,
            Err(e) => return Err(e),
        };
        let interest_charge_amount = match opt_u32(j, "interest_charge_amount") {
            Ok(v) => v,
            Err(e) => return Err(e),
        };
        Ok(Aprs { apr_percentage, apr_type, balance_subject_to_apr, interest_charge_amount })
    }
}

/// Liability details of a credit card account.
#[derive(Clone, Debug)]
pub struct Credit {
    pub account_id: Option<String>,
    pub aprs: Aprs,
    pub is_overdue: Option<bool>,
    pub last_payment_amount: u32,
    pub last_payment_date: String,
    pub last_statement_balance: u32,
    pub last_statement_issue_date: String,
    pub minimum_payment_amount: u32,
    pub next_payment_due_date: String,
}

/// `j` is an object with the fields of a `Credit`.
pub open spec fn credit_ok(j: Json) -> bool {
    &&& j is Object
    &&& opt_str_ok(j, "account_id"@)
    &&& (member(j, "aprs"@) matches Some(v) && aprs_ok(v))
    &&& opt_bool_ok(j, "is_overdue"@)
    &&& u32_at(j, "last_payment_amount"@) is Some
    &&& str_at(j, "last_payment_date"@) is Some
    &&& u32_at(j, "last_statement_balance"@) is Some
    &&& str_at(j, "last_statement_issue_date"@) is Some
    &&& u32_at(j, "minimum_payment_amount"@) is Some
    &&& str_at(j, "next_payment_due_date"@) is Some
}

/// `x` holds the fields of the object `j`.
pub open spec fn credit_from(j: Json, x: Credit) -> bool {
    &&& str_at(j, "account_id"@) == opt_view(x.account_id)
    &&& aprs_from(member(j, "aprs"@)->Some_0, x.aprs)
    &&& bool_at(j, "is_overdue"@) == x.is_overdue
    &&& u32_at(j, "last_payment_amount"@) == Some(x.last_payment_amount)
    &&& str_at(j, "last_payment_date"@) == Some(x.last_payment_date@)
    &&& u32_at(j, "last_statement_balance"@) == Some(x.last_statement_balance)
    &&& str_at(j, "last_statement_issue_date"@) == Some(x.last_statement_issue_date@)
    &&& u32_at(j, "minimum_payment_amount"@) == Some(x.minimum_payment_amount)
    &&& str_at(j, "next_payment_due_date"@) == Some(x.next_payment_due_date@)
}

impl Credit {
    /// Reads a `Credit` from a JSON object.
    pub fn from_json(j: &Json) -> (r: Result<Credit, DecodeError>)
        ensures
            r is Ok <==> credit_ok(*j),
            r matches Ok(x) ==> credit_from(*j, x),
            !(*j is Object) ==> r matches Err(DecodeError::NotAnObject),
    {
        if !(matches!(j, Json::Object(_))) {
            return Err(DecodeError::NotAnObject);
        }
        let account_id = match opt_str(j, "account_id") {
            Ok(v) => v,
            Err(e) => return Err(e),
        };
        let aprs = match req_object(j, "aprs") {
            Ok(v) => match Aprs::from_json(v) {
                Ok(x) => x,
                Err(e) => return Err(e),
            },
            Err(e) => return Err(e),
        };
        let is_overdue = match opt_bool(j, "is_overdue") {
            Ok(v) => v,
            Err(e) => return Err(e),
        };
        let last_payment_amount = match req_u32(j, "last_payment_amount") {
            Ok(v) => v,
            Err(e) => return Err(e),
        };
        let last_payment_date = match req_str(j, "last_payment_date") {
            Ok(v) => v,
            Err(e) => return Err(e),
        };
        let last_statement_balance = match req_u32(j, "last_statement_balance") {
            Ok(v) => v,
            Err(e) => return Err(e),
        };
        let last_statement_issue_date = match req_str(j, "last_statement_issue_date") {
            Ok(v) => v,
            Err(e) => return Err(e),
        };
        let minimum_payment_amount = match req_u32(j, "minimum_payment_amount") {
            Ok(v) => v,
            Err(e) => return Err(e),
        };
        let next_payment_due_date = match req_str(j, "next_payment_due_date") {
            Ok(v) => v,
            Err(e) => return Err(e),
        };
        Ok(Credit { account_id, aprs, is_overdue, last_payment_amount, last_payment_date, last_statement_balance, last_statement_issue_date, minimum_payment_amount, next_payment_due_date })
    }
}

/// The interest rate of a mortgage.
#[derive(Clone, Debug)]
pub struct InterestRate {
    pub percentage: Option<u32>,
    /// Carried on the wire under the key `type`.
    pub interest_rate_type: Option<String>,
}

/// `j` is an object with the fields of an `InterestRate`.
pub open spec fn interest_rate_ok(j: Json) -> bool {
    &&& j is Object
    &&& opt_u32_ok(j, "percentage"@)
    &&& opt_str_ok(j, "type"@)
}

/// `x` holds the fields of the object `j`.
pub open spec fn interest_rate_from(j: Json, x: InterestRate) -> bool {
    &&& u32_at(j, "percentage"@) == x.percentage
    &&& str_at(j, "type"@) == opt_view(x.interest_rate_type)
}

impl InterestRate {
    /// Reads an `InterestRate` from a JSON object.
    pub fn from_json(j: &Json) -> (r: Result<InterestRate, DecodeError>)
        ensures
            r is Ok <==> interest_rate_ok(*j),
            r matches Ok(x) ==> interest_rate_from(*j, x),
            !(*j is Object) ==> r matches Err(DecodeError::NotAnObject),
    {
        if !(matches!(j, Json::Object(_))) {
            return Err(DecodeError::NotAnObject);
        }
        let percentage = match opt_u32(j, "percentage") {
            Ok(v) => v,
            Err(e) => return Err(e),
        };
        let interest_rate_type = match opt_str(j, "type") {
            Ok(v) => v,
            Err(e) => return Err(e),
        };
        Ok(InterestRate { percentage, interest_rate_type })
    }
}

/// The address of a mortgaged property.
#[derive(Clone, Debug)]
pub struct PropertyAddress {
    pub city: Option<String>,
    pub country: Option<String>,
    pub postal_code: Option<String>,
    pub region: Option<String>,
    pub street: Option<String>,
}

/// `j` is an object with the fields of a `PropertyAddress`.
pub open spec fn property_address_ok(j: Json) -> bool {
    &&& j is Object
    &&& opt_str_ok(j, "city"@)
    &&& opt_str_ok(j, "country"@)
    &&& opt_str_ok(j, "postal_code"@)
    &&& opt_str_ok(j, "region"@)
    &&& opt_str_ok(j, "street"@)
}

/// `x` holds the fields of the object `j`.
pub open spec fn property_address_from(j: Json, x: PropertyAddress) -> bool {
    &&& str_at(j, "city"@) == opt_view(x.city)
    &&& str_at(j, "country"@) == opt_view(x.country)
    &&& str_at(j, "postal_code"@) == opt_view(x.postal_code)
    &&& str_at(j, "region"@) == opt_view(x.region)
    &&& str_at(j, "street"@) == opt_view(x.street)
}

impl PropertyAddress {
    /// Reads a `PropertyAddress` from a JSON object.
    pub fn from_json(j: &Json) -> (r: Result<PropertyAddress, DecodeError>)
        ensures
            r is Ok <==> property_address_ok(*j),
            r matches Ok(x) ==> property_address_from(*j, x),
            !(*j is Object) ==> r matches Err(DecodeError::NotAnObject),
    {
        if !(matches!(j, Json::Object(_))) {
            return Err(DecodeError::NotAnObject);
        }
        let city = match opt_str(j, "city") {
            Ok(v) => v,
            Err(e) => return Err(e),
        };
        let country = match opt_str(j, "country") {
            Ok(v) => v,
            Err(e) => return Err(e),
        };
        let postal_code = match opt_str(j, "postal_code") {
            Ok(v) => v,
            Err(e) => return Err(e),
        };
        let region = match opt_str(j, "region") {
            Ok(v) => v,
            Err(e) => return Err(e),
        };
        let street = match opt_str(j, "street") {
            Ok(v) => v,
            Err(e) => return Err(e),
        };
        Ok(PropertyAddress { city, country, postal_code, region, street })
    }
}

/// Liability details of a mortgage account.
#[derive(Clone, Debug)]
pub struct Mortgage {
    pub account_id: Option<String>,
    pub account_number: String,
    pub current_late_fee: Option<u32>,
    pub escrow_balance: Option<u32>,
    pub has_pml: Option<bool>,
    pub has_prepayment_penalty: Option<bool>,
    pub interest_rate: InterestRate,
    pub last_payment_amount: Option<u32>,
    pub last_payment_date: Option<String>,
    pub loan_type_description: Option<String>,
    pub loan_term: Option<String>,
    pub maturity_date: Option<String>,
    pub next_monthly_payment: Option<u32>,
    pub next_payment_due_date: Option<String>,
    pub origination_date: Option<String>,
    pub origination_principal_amount: Option<u32>,
    pub past_due_amount: Option<u32>,
    pub property_address: PropertyAddress,
    pub ytd_interest_paid: Option<u32>,
    pub ytd_principal_paid: Option<u32>,
}

/// `j` is an object with the fields of a `Mortgage`.
pub open spec fn mortgage_ok(j: Json) -> bool {
    &&& j is Object
    &&& opt_str_ok(j, "account_id"@)
    &&& str_at(j, "account_number"@) is Some
    &&& opt_u32_ok(j, "current_late_fee"@)
    &&& opt_u32_ok(j, "escrow_balance"@)
    &&& opt_bool_ok(j, "has_pml"@)
    &&& opt_bool_ok(j, "has_prepayment_penalty"@)
    &&& (member(j, "interest_rate"@) matches Some(v) && interest_rate_ok(v))
    &&& opt_u32_ok(j, "last_payment_amount"@)
    &&& opt_str_ok(j, "last_payment_date"@)
    &&& opt_str_ok(j, "loan_type_description"@)
    &&& opt_str_ok(j, "loan_term"@)
    &&& opt_str_ok(j, "maturity_date"@)
    &&& opt_u32_ok(j, "next_monthly_payment"@)
    &&& opt_str_ok(j, "next_payment_due_date"@)
    &&& opt_str_ok(j, "origination_date"@)
    &&& opt_u32_ok(j, "origination_principal_amount"@)
    &&& opt_u32_ok(j, "past_due_amount"@)
    &&& (member(j, "property_address"@) matches Some(v) && property_address_ok(v))
    &&& opt_u32_ok(j, "ytd_interest_paid"@)
    &&& opt_u32_ok(j, "ytd_principal_paid"@)
}

/// `x` holds the fields of the object `j`.
pub open spec fn mortgage_from(j: Json, x: Mortgage) -> bool {
    &&& str_at(j, "account_id"@) == opt_view(x.account_id)
    &&& str_at(j, "account_number"@) == Some(x.account_number@)
    &&& u32_at(j, "current_late_fee"@) == x.current_late_fee
    &&& u32_at(j, "escrow_balance"@) == x.escrow_balance
    &&& bool_at(j, "has_pml"@) == x.has_pml
    &&& bool_at(j, "has_prepayment_penalty"@) == x.has_prepayment_penalty
    &&& interest_rate_from(member(j, "interest_rate"@)->Some_0, x.interest_rate)
    &&& u32_at(j, "last_payment_amount"@) == x.last_payment_amount
    &&& str_at(j, "last_payment_date"@) == opt_view(x.last_payment_date)
    &&& str_at(j, "loan_type_description"@) == opt_view(x.loan_type_description)
    &&& str_at(j, "loan_term"@) == opt_view(x.loan_term)
    &&& str_at(j, "maturity_date"@) == opt_view(x.maturity_date)
    &&& u32_at(j, "next_monthly_payment"@) == x.next_monthly_payment
    &&& str_at(j, "next_payment_due_date"@) == opt_view(x.next_payment_due_date)
    &&& str_at(j, "origination_date"@) == opt_view(x.origination_date)
    &&& u32_at(j, "origination_principal_amount"@) == x.origination_principal_amount
    &&& u32_at(j, "past_due_amount"@) == x.past_due_amount
    &&& property_address_from(member(j, "property_address"@)->Some_0, x.property_address)
    &&& u32_at(j, "ytd_interest_paid"@) == x.ytd_interest_paid
    &&& u32_at(j, "ytd_principal_paid"@) == x.ytd_principal_paid
}

impl Mortgage {
    /// Reads a `Mortgage` from a JSON object.
    #[verifier::rlimit(50)]
    pub fn from_json(j: &Json) -> (r: Result<Mortgage, DecodeError>)
        ensures
            r is Ok <==> mortgage_ok(*j),
            r matches Ok(x) ==> mortgage_from(*j, x),
            !(*j is Object) ==> r matches Err(DecodeError::NotAnObject),
    {
        if !(matches!(j, Json::Object(_))) {
            return Err(DecodeError::NotAnObject);
        }
        let account_id = match opt_str(j, "account_id") {
            Ok(v) => v,
            Err(e) => return Err(e),
        };
        let account_number = match req_str(j, "account_number") {
            Ok(v) => v,
            Err(e) => return Err(e),
        };
        let current_late_fee = match opt_u32(j, "current_late_fee") {
            Ok(v) => v,
            Err(e) => return Err(e),
        };
        let escrow_balance = match opt_u32(j, "escrow_balance") {
            Ok(v) => v,
            Err(e) => return Err(e),
        };
        let has_pml = match opt_bool(j, "has_pml") {
            Ok(v) => v,
            Err(e) => return Err(e),
        };
        let has_prepayment_penalty = match opt_bool(j, "has_prepayment_penalty") {
            Ok(v) => v,
            Err(e) => return Err(e),
        };
        let interest_rate = match req_object(j, "interest_rate") {
            Ok(v) => match InterestRate::from_json(v) {
                Ok(x) => x,
                Err(e) => return Err(e),
            },
            Err(e) => return Err(e),
        };
        let last_payment_amount = match opt_u32(j, "last_payment_amount") {
            Ok(v) => v,
            Err(e) => return Err(e),
        };
        let last_payment_date = match opt_str(j, "last_payment_date") {
            Ok(v) => v,
            Err(e) => return Err(e),
        };
        let loan_type_description = match opt_str(j, "loan_type_description") {
            Ok(v) => v,
            Err(e) => return Err(e),
        };
        let loan_term = match opt_str(j, "loan_term") {
            Ok(v) => v,
            Err(e) => return Err(e),
        };
        let maturity_date = match opt_str(j, "maturity_date") {
            Ok(v) => v,
            Err(e) => return Err(e),
        };
        let next_monthly_payment = match opt_u32(j, "next_monthly_payment") {
            Ok(v) => v,
            Err(e) => return Err(e),
        };
        let next_payment_due_date = match opt_str(j, "next_payment_due_date") {
            Ok(v) => v,
            Err(e) => return Err(e),
        };
        let origination_date = match opt_str(j, "origination_date") {
            Ok(v) => v,
            Err(e) => return Err(e),
        };
        let origination_principal_amount = match opt_u32(j, "origination_principal_amount") {
            Ok(v) => v,
            Err(e) => return Err(e),
        };
        let past_due_amount = match opt_u32(j, "past_due_amount") {
            Ok(v) => v,
            Err(e) => return Err(e),
        };
        let property_address = match req_object(j, "property_address") {
            Ok(v) => match PropertyAddress::from_json(v) {
                Ok(x) => x,
                Err(e) => return Err(e),
            },
            Err(e) => return Err(e),
        };
        let ytd_interest_paid = match opt_u32(j, "ytd_interest_paid") {
            Ok(v) => v,
            Err(e) => return Err(e),
        };
        let ytd_principal_paid = match opt_u32(j, "ytd_principal_paid") {
            Ok(v) => v,
            Err(e) => return Err(e),
        };
        Ok(Mortgage { account_id, account_number, current_late_fee, escrow_balance, has_pml, has_prepayment_penalty, interest_rate, last_payment_amount, last_payment_date, loan_type_description, loan_term, maturity_date, next_monthly_payment, next_payment_due_date, origination_date, origination_principal_amount, past_due_amount, property_address, ytd_interest_paid, ytd_principal_paid })
    }
}

/// The status of a student loan.
#[derive(Clone, Debug)]
pub struct LoanStatus {
    pub end_date: Option<String>,
    /// Carried on the wire under the key `type`.
    pub loan_status_type: Option<String>,
}

/// `j` is an object with the fields of a `LoanStatus`.
pub open spec fn loan_status_ok(j: Json) -> bool {
    &&& j is Object
    &&& opt_str_ok(j, "end_date"@)
    &&& opt_str_ok(j, "type"@)
}

/// `x` holds the fields of the object `j`.
pub open spec fn loan_status_from(j: Json, x: LoanStatus) -> bool {
    &&& str_at(j, "end_date"@) == opt_view(x.end_date)
    &&& str_at(j, "type"@) == opt_view(x.loan_status_type)
}

impl LoanStatus {
    /// Reads a `LoanStatus` from a JSON object.
    pub fn from_json(j: &Json) -> (r: Result<LoanStatus, DecodeError>)
        ensures
            r is Ok <==> loan_status_ok(*j),
            r matches Ok(x) ==> loan_status_from(*j, x),
            !(*j is Object) ==> r matches Err(DecodeError::NotAnObject),
    {
        if !(matches!(j, Json::Object(_))) {
            return Err(DecodeError::NotAnObject);
        }
        let end_date = match opt_str(j, "end_date") {
            Ok(v) => v,
            Err(e) => return Err(e),
        };
        let loan_status_type = match opt_str(j, "type") {
            Ok(v) => v,
            Err(e) => return Err(e),
        };
        Ok(LoanStatus { end_date, loan_status_type })
    }
}

/// Progress of a student loan towards public service loan forgiveness.
#[derive(Clone, Debug)]
pub struct PslfStatus {
    pub estimated_eligibility_date: Option<String>,
    pub payments_made: Option<u32>,
    pub payments_remaining: Option<u32>,
}

/// `j` is an object with the fields of a `PslfStatus`.
pub open spec fn pslf_status_ok(j: Json) -> bool {
    &&& j is Object
    &&& opt_str_ok(j, "estimated_eligibility_date"@)
    &&& opt_u32_ok(j, "payments_made"@)
    &&& opt_u32_ok(j, "payments_remaining"@)
}

/// `x` holds the fields of the object `j`.
pub open spec fn pslf_status_from(j: Json, x: PslfStatus) -> bool {
    &&& str_at(j, "estimated_eligibility_date"@) == opt_view(x.estimated_eligibility_date)
    &&& u32_at(j, "payments_made"@) == x.payments_made
    &&& u32_at(j, "payments_remaining"@) == x.payments_remaining
}

impl PslfStatus {
    /// Reads a `PslfStatus` from a JSON object.
    pub fn from_json(j: &Json) -> (r: Result<PslfStatus, DecodeError>)
        ensures
            r is Ok <==> pslf_status_ok(*j),
            r matches Ok(x) ==> pslf_status_from(*j, x),
            !(*j is Object) ==> r matches Err(DecodeError::NotAnObject),
    {
        if !(matches!(j, Json::Object(_))) {
            return Err(DecodeError::NotAnObject);
        }
        let estimated_eligibility_date = match opt_str(j, "estimated_eligibility_date") {
            Ok(v) => v,
            Err(e) => return Err(e),
        };
        let payments_made = match opt_u32(j, "payments_made") {
            Ok(v) => v,
            Err(e) => return Err(e),
        };
        let payments_remaining = match opt_u32(j, "payments_remaining") {
            Ok(v) => v,
            Err(e) => return Err(e),
        };
        Ok(PslfStatus { estimated_eligibility_date, payments_made, payments_remaining })
    }
}

/// The repayment plan of a student loan.
#[derive(Clone, Debug)]
pub struct RepaymentPlan {
    pub description: Option<String>,
    /// Carried on the wire under the key `type`.
    pub repaymentplan_type: Option<String>,
}

/// `j` is an object with the fields of a `RepaymentPlan`.
pub open spec fn repayment_plan_ok(j: Json) -> bool {
    &&& j is Object
    &&& opt_str_ok(j, "description"@)
    &&& opt_str_ok(j, "type"@)
}

/// `x` holds the fields of the object `j`.
pub open spec fn repayment_plan_from(j: Json, x: RepaymentPlan) -> bool {
    &&& str_at(j, "description"@) == opt_view(x.description)
    &&& str_at(j, "type"@) == opt_view(x.repaymentplan_type)
}

impl RepaymentPlan {
    /// Reads a `RepaymentPlan` from a JSON object.
    pub fn from_json(j: &Json) -> (r: Result<RepaymentPlan, DecodeError>)
        ensures
            r is Ok <==> repayment_plan_ok(*j),
            r matches Ok(x) ==> repayment_plan_from(*j, x),
            !(*j is Object) ==> r matches Err(DecodeError::NotAnObject),
    {
        if !(matches!(j, Json::Object(_))) {
            return Err(DecodeError::NotAnObject);
        }
        let description = match opt_str(j, "description") {
            Ok(v) => v,
            Err(e) => return Err(e),
        };
        let repaymentplan_type = match opt_str(j, "type") {
            Ok(v) => v,
            Err(e) => return Err(e),
        };
        Ok(RepaymentPlan { description, repaymentplan_type })
    }
}

/// The address of a student loan's servicer.
#[derive(Clone, Debug)]
pub struct ServicerAddress {
    pub city: Option<String>,
    pub region: Option<String>,
    pub street: Option<String>,
    pub postal_code: Option<String>,
    pub country: Option<String>,
}

/// `j` is an object with the fields of a `ServicerAddress`.
pub open spec fn servicer_address_ok(j: Json) -> bool {
    &&& j is Object
    &&& opt_str_ok(j, "city"@)
    &&& opt_str_ok(j, "region"@)
    &&& opt_str_ok(j, "street"@)
    &&& opt_str_ok(j, "postal_code"@)
    &&& opt_str_ok(j, "country"@)
}

/// `x` holds the fields of the object `j`.
pub open spec fn servicer_address_from(j: Json, x: ServicerAddress) -> bool {
    &&& str_at(j, "city"@) == opt_view(x.city)
    &&& str_at(j, "region"@) == opt_view(x.region)
    &&& str_at(j, "street"@) == opt_view(x.street)
    &&& str_at(j, "postal_code"@) == opt_view(x.postal_code)
    &&& str_at(j, "country"@) == opt_view(x.country)
}

impl ServicerAddress {
    /// Reads a `ServicerAddress` from a JSON object.
    pub fn from_json(j: &Json) -> (r: Result<ServicerAddress, DecodeError>)
        ensures
            r is Ok <==> servicer_address_ok(*j),
            r matches Ok(x) ==> servicer_address_from(*j, x),
            !(*j is Object) ==> r matches Err(DecodeError::NotAnObject),
    {
        if !(matches!(j, Json::Object(_))) {
            return Err(DecodeError::NotAnObject);
        }
        let city = match opt_str(j, "city") {
            Ok(v) => v,
            Err(e) => return Err(e),
        };
        let region = match opt_str(j, "region") {
            Ok(v) => v,
            Err(e) => return Err(e),
        };
        let street = match opt_str(j, "street") {
            Ok(v) => v,
            Err(e) => return Err(e),
        };
        let postal_code = match opt_str(j, "postal_code") {
            Ok(v) => v,
            Err(e) => return Err(e),
        };
        let country = match opt_str(j, "country") {
            Ok(v) => v,
            Err(e) => return Err(e),
        };
        Ok(ServicerAddress { city, region, street, postal_code, country })
    }
}

/// Liability details of a student loan account.
#[derive(Clone, Debug)]
pub struct Student {
    pub account_id: Option<String>,
    pub account_number: Option<String>,
    pub disbursement_dates: Option<String>,
    pub expected_payoff_date: Option<String>,
    pub guarantor: Option<String>,
    pub interest_rate_percentage: u32,
    pub is_overdue: Option<bool>,
    pub last_payment_amount: Option<u32>,
    pub last_payment_date: Option<String>,
    pub last_statement_balance: Option<u32>,
    pub last_statement_issue_date: Option<String>,
    pub loan_name: Option<String>,
    pub loan_status: LoanStatus,
    pub minimum_payment_amount: Option<u32>,
    pub next_payment_due_date: Option<String>,
    pub origination_date: Option<String>,
    pub origination_principal_amount: Option<u32>,
    pub outstanding_interest_amount: Option<u32>,
    pub payment_reference_number: Option<String>,
    pub pslf_status: PslfStatus,
    pub repayment_plan: RepaymentPlan,
    pub sequence_number: Option<String>,
    pub servicer_address: ServicerAddress,
    pub ytd_interest_paid: Option<u32>,
    pub ytd_principal_paid: Option<u32>,
}

/// `j` is an object with the fields of a `Student`.
pub open spec fn student_ok(j: Json) -> bool {
    &&& j is Object
    &&& opt_str_ok(j, "account_id"@)
    &&& opt_str_ok(j, "account_number"@)
    &&& opt_str_ok(j, "disbursement_dates"@)
    &&& opt_str_ok(j, "expected_payoff_date"@)
    &&& opt_str_ok(j, "guarantor"@)
    &&& u32_at(j, "interest_rate_percentage"@) is Some
    &&& opt_bool_ok(j, "is_overdue"@)
    &&& opt_u32_ok(j, "last_payment_amount"@)
    &&& opt_str_ok(j, "last_payment_date"@)
    &&& opt_u32_ok(j, "last_statement_balance"@)
    &&& opt_str_ok(j, "last_statement_issue_date"@)
    &&& opt_str_ok(j, "loan_name"@)
    &&& (member(j, "loan_status"@) matches Some(v) && loan_status_ok(v))
    &&& opt_u32_ok(j, "minimum_payment_amount"@)
    &&& opt_str_ok(j, "next_payment_due_date"@)
    &&& opt_str_ok(j, "origination_date"@)
    &&& opt_u32_ok(j, "origination_principal_amount"@)
    &&& opt_u32_ok(j, "outstanding_interest_amount"@)
    &&& opt_str_ok(j, "payment_reference_number"@)
    &&& (member(j, "pslf_status"@) matches Some(v) && pslf_status_ok(v))
    &&& (member(j, "repayment_plan"@) matches Some(v) && repayment_plan_ok(v))
    &&& opt_str_ok(j, "sequence_number"@)
    &&& (member(j, "servicer_address"@) matches Some(v) && servicer_address_ok(v))
    &&& opt_u32_ok(j, "ytd_interest_paid"@)
    &&& opt_u32_ok(j, "ytd_principal_paid"@)
}

/// `x` holds the fields of the object `j`.
pub open spec fn student_from(j: Json, x: Student) -> bool {
    &&& str_at(j, "account_id"@) == opt_view(x.account_id)
    &&& str_at(j, "account_number"@) == opt_view(x.account_number)
    &&& str_at(j, "disbursement_dates"@) == opt_view(x.disbursement_dates)
    &&& str_at(j, "expected_payoff_date"@) == opt_view(x.expected_payoff_date)
    &&& str_at(j, "guarantor"@) == opt_view(x.guarantor)
    &&& u32_at(j, "interest_rate_percentage"@) == Some(x.interest_rate_percentage)
    &&& bool_at(j, "is_overdue"@) == x.is_overdue
    &&& u32_at(j, "last_payment_amount"@) == x.last_payment_amount
    &&& str_at(j, "last_payment_date"@) == opt_view(x.last_payment_date)
    &&& u32_at(j, "last_statement_balance"@) == x.last_statement_balance
    &&& str_at(j, "last_statement_issue_date"@) == opt_view(x.last_statement_issue_date)
    &&& str_at(j, "loan_name"@) == opt_view(x.loan_name)
    &&& loan_status_from(member(j, "loan_status"@)->Some_0, x.loan_status)
    &&& u32_at(j, "minimum_payment_amount"@) == x.minimum_payment_amount
    &&& str_at(j, "next_payment_due_date"@) == opt_view(x.next_payment_due_date)
    &&& str_at(j, "origination_date"@) == opt_view(x.origination_date)
    &&& u32_at(j, "origination_principal_amount"@) == x.origination_principal_amount
    &&& u32_at(j, "outstanding_interest_amount"@) == x.outstanding_interest_amount
    &&& str_at(j, "payment_reference_number"@) == opt_view(x.payment_reference_number)
    &&& pslf_status_from(member(j, "pslf_status"@)->Some_0, x.pslf_status)
    &&& repayment_plan_from(member(j, "repayment_plan"@)->Some_0, x.repayment_plan)
    &&& str_at(j, "sequence_number"@) == opt_view(x.sequence_number)
    &&& servicer_address_from(member(j, "servicer_address"@)->Some_0, x.servicer_address)
    &&& u32_at(j, "ytd_interest_paid"@) == x.ytd_interest_paid
    &&& u32_at(j, "ytd_principal_paid"@) == x.ytd_principal_paid
}

impl Student {
    /// Reads a `Student` from a JSON object.
    #[verifier::rlimit(50)]
    pub fn from_json(j: &Json) -> (r: Result<Student, DecodeError>)
        ensures
            r is Ok <==> student_ok(*j),
            r matches Ok(x) ==> student_from(*j, x),
            !(*j is Object) ==> r matches Err(DecodeError::NotAnObject),
    {
        if !(matches!(j, Json::Object(_))) {
            return Err(DecodeError::NotAnObject);
        }
        let account_id = match opt_str(j, "account_id") {
            Ok(v) => v,
            Err(e) => return Err(e),
        };
        let account_number = match opt_str(j, "account_number") {
            Ok(v) => v,
            Err(e) => return Err(e),
        };
        let disbursement_dates = match opt_str(j, "disbursement_dates") {
            Ok(v) => v,
            Err(e) => return Err(e),
        };
        let expected_payoff_date = match opt_str(j, "expected_payoff_date") {
            Ok(v) => v,
            Err(e) => return Err(e),
        };
        let guarantor = match opt_str(j, "guarantor") {
            Ok(v) => v,
            Err(e) => return Err(e),
        };
        let interest_rate_percentage = match req_u32(j, "interest_rate_percentage") {
            Ok(v) => v,
            Err(e) => return Err(e),
        };
        let is_overdue = match opt_bool(j, "is_overdue") {
            Ok(v) => v,
            Err(e) => return Err(e),
        };
        let last_payment_amount = match opt_u32(j, "last_payment_amount") {
            Ok(v) => v,
            Err(e) => return Err(e),
        };
        let last_payment_date = match opt_str(j, "last_payment_date") {
            Ok(v) => v,
            Err(e) => return Err(e),
        };
        let last_statement_balance = match opt_u32(j, "last_statement_balance") {
            Ok(v) => v,
            Err(e) => return Err(e),
        };
        let last_statement_issue_date = match opt_str(j, "last_statement_issue_date") {
            Ok(v) => v,
            Err(e) => return Err(e),
        };
        let loan_name = match opt_str(j, "loan_name") {
            Ok(v) => v,
            Err(e) => return Err(e),
        };
        let loan_status = match req_object(j, "loan_status") {
            Ok(v) => match LoanStatus::from_json(v) {
                Ok(x) => x,
                Err(e) => return Err(e),
            },
            Err(e) => return Err(e),
        };
        let minimum_payment_amount = match opt_u32(j, "minimum_payment_amount") {
            Ok(v) => v,
            Err(e) => return Err(e),
        };
        let next_payment_due_date = match opt_str(j, "next_payment_due_date") {
            Ok(v) => v,
            Err(e) => return Err(e),
        };
        let origination_date = match opt_str(j, "origination_date") {
            Ok(v) => v,
            Err(e) => return Err(e),
        };
        let origination_principal_amount = match opt_u32(j, "origination_principal_amount") {
            Ok(v) => v,
            Err(e) => return Err(e),
        };
        let outstanding_interest_amount = match opt_u32(j, "outstanding_interest_amount") {
            Ok(v) => v,
            Err(e) => return Err(e),
        };
        let payment_reference_number = match opt_str(j, "payment_reference_number") {
            Ok(v) => v,
            Err(e) => return Err(e),
        };
        let pslf_status = match req_object(j, "pslf_status") {
            Ok(v) => match PslfStatus::from_json(v) {
                Ok(x) => x,
                Err(e) => return Err(e),
            },
            Err(e) => return Err(e),
        };
        let repayment_plan = match req_object(j, "repayment_plan") {
            Ok(v) => match RepaymentPlan::from_json(v) {
                Ok(x) => x,
                Err(e) => return Err(e),
            },
            Err(e) => return Err(e),
        };
        let sequence_number = match opt_str(j, "sequence_number") {
            Ok(v) => v,
            Err(e) => return Err(e),
        };
        let servicer_address = match req_object(j, "servicer_address") {
            Ok(v) => match ServicerAddress::from_json(v) {
                Ok(x) => x,
                Err(e) => return Err(e),
            },
            Err(e) => return Err(e),
        };
        let ytd_interest_paid = match opt_u32(j, "ytd_interest_paid") {
            Ok(v) => v,
            Err(e) => return Err(e),
        };
        let ytd_principal_paid = match opt_u32(j, "ytd_principal_paid") {
            Ok(v) => v,
            Err(e) => return Err(e),
        };
        Ok(Student { account_id, account_number, disbursement_dates, expected_payoff_date, guarantor, interest_rate_percentage, is_overdue, last_payment_amount, last_payment_date, last_statement_balance, last_statement_issue_date, loan_name, loan_status, minimum_payment_amount, next_payment_due_date, origination_date, origination_principal_amount, outstanding_interest_amount, payment_reference_number, pslf_status, repayment_plan, sequence_number, servicer_address, ytd_interest_paid, ytd_principal_paid })
    }
}

/// The credit, mortgage and student loan liabilities of an Item.
#[derive(Clone, Debug)]
pub struct Liabilities {
    pub credit: Credit,
    pub mortgage: Mortgage,
    pub student: Student,
    pub request_id: String,
}

/// `j` is an object with the fields of a `Liabilities`.
pub open spec fn liabilities_ok(j: Json) -> bool {
    &&& j is Object
    &&& (member(j, "credit"@) matches Some(v) && credit_ok(v))
    &&& (member(j, "mortgage"@) matches Some(v) && mortgage_ok(v))
    &&& (member(j, "student"@) matches Some(v) && student_ok(v))
    &&& str_at(j, "request_id"@) is Some
}

/// `x` holds the fields of the object `j`.
pub open spec fn liabilities_from(j: Json, x: Liabilities) -> bool {
    &&& credit_from(member(j, "credit"@)->Some_0, x.credit)
    &&& mortgage_from(member(j, "mortgage"@)->Some_0, x.mortgage)
    &&& student_from(member(j, "student"@)->Some_0, x.student)
    &&& str_at(j, "request_id"@) == Some(x.request_id@)
}

impl Liabilities {
    /// Reads a `Liabilities` from a JSON object.
    pub fn from_json(j: &Json) -> (r: Result<Liabilities, DecodeError>)
        ensures
            r is Ok <==> liabilities_ok(*j),
            r matches Ok(x) ==> liabilities_from(*j, x),
            !(*j is Object) ==> r matches Err(DecodeError::NotAnObject),
    {
        if !(matches!(j, Json::Object(_))) {
            return Err(DecodeError::NotAnObject);
        }
        let credit = match req_object(j, "credit") {
            Ok(v) => match Credit::from_json(v) {
                Ok(x) => x,
                Err(e) => return Err(e),
            },
            Err(e) => return Err(e),
        };
        let mortgage = match req_object(j, "mortgage") {
            Ok(v) => match Mortgage::from_json(v) {
                Ok(x) => x,
                Err(e) => return Err(e),
            },
            Err(e) => return Err(e),
        };
        let student = match req_object(j, "student") {
            Ok(v) => match Student::from_json(v) {
                Ok(x) => x,
                Err(e) => return Err(e),
            },
            Err(e) => return Err(e),
        };
        let request_id = match req_str(j, "request_id") {
            Ok(v) => v,
            Err(e) => return Err(e),
        };
        Ok(Liabilities { credit, mortgage, student, request_id })
    }
}

/// A financial institution account associated with an Item.
#[derive(Clone, Debug)]
pub struct Account {
    pub account_id: String,
    pub mask: Option<String>,
    pub name: Option<String>,
    pub official_name: Option<String>,
    /// Carried on the wire under the key `type`.
    pub account_type: Option<String>,
    pub subtype: Option<String>,
}

/// `j` is an object with the fields of an `Account`.
pub open spec fn account_ok(j: Json) -> bool {
    &&& j is Object
    &&& str_at(j, "account_id"@) is Some
    &&& opt_str_ok(j, "mask"@)
    &&& opt_str_ok(j, "name"@)
    &&& opt_str_ok(j, "official_name"@)
    &&& opt_str_ok(j, "type"@)
    &&& opt_str_ok(j, "subtype"@)
}

/// `x` holds the fields of the object `j`.
pub open spec fn account_from(j: Json, x: Account) -> bool {
    &&& str_at(j, "account_id"@) == Some(x.account_id@)
    &&& str_at(j, "mask"@) == opt_view(x.mask)
    &&& str_at(j, "name"@) == opt_view(x.name)
    &&& str_at(j, "official_name"@) == opt_view(x.official_name)
    &&& str_at(j, "type"@) == opt_view(x.account_type)
    &&& str_at(j, "subtype"@) == opt_view(x.subtype)
}

impl Account {
    /// Reads an `Account` from a JSON object.
    pub fn from_json(j: &Json) -> (r: Result<Account, DecodeError>)
        ensures
            r is Ok <==> account_ok(*j),
            r matches Ok(x) ==> account_from(*j, x),
            !(*j is Object) ==> r matches Err(DecodeError::NotAnObject),
    {
        if !(matches!(j, Json::Object(_))) {
            return Err(DecodeError::NotAnObject);
        }
        let account_id = match req_str(j, "account_id") {
            Ok(v) => v,
            Err(e) => return Err(e),
        };
        let mask = match opt_str(j, "mask") {
            Ok(v) => v,
            Err(e) => return Err(e),
        };
        let name = match opt_str(j, "name") {
            Ok(v) => v,
            Err(e) => return Err(e),
        };
        let official_name = match opt_str(j, "official_name") {
            Ok(v) => v,
            Err(e) => return Err(e),
        };
        let account_type = match opt_str(j, "type") {
            Ok(v) => v,
            Err(e) => return Err(e),
        };
        let subtype = match opt_str(j, "subtype") {
            Ok(v) => v,
            Err(e) => return Err(e),
        };
        Ok(Account { account_id, mask, name, official_name, account_type, subtype })
    }
}

/// Metadata about an Item, one linked connection to a financial institution.
#[derive(Clone, Debug)]
pub struct Item {
    pub item_id: String,
    pub institution_id: Option<String>,
    pub webhook: Option<String>,
}

/// `j` is an object with the fields of an `Item`.
pub open spec fn item_ok(j: Json) -> bool {
    &&& j is Object
    &&& str_at(j, "item_id"@) is Some
    &&& opt_str_ok(j, "institution_id"@)
    &&& opt_str_ok(j, "webhook"@)
}

/// `x` holds the fields of the object `j`.
pub open spec fn item_from(j: Json, x: Item) -> bool {
    &&& str_at(j, "item_id"@) == Some(x.item_id@)
    &&& str_at(j, "institution_id"@) == opt_view(x.institution_id)
    &&& str_at(j, "webhook"@) == opt_view(x.webhook)
}

impl Item {
    /// Reads an `Item` from a JSON object.
    pub fn from_json(j: &Json) -> (r: Result<Item, DecodeError>)
        ensures
            r is Ok <==> item_ok(*j),
            r matches Ok(x) ==> item_from(*j, x),
            !(*j is Object) ==> r matches Err(DecodeError::NotAnObject),
    {
        if !(matches!(j, Json::Object(_))) {
            return Err(DecodeError::NotAnObject);
        }
        let item_id = match req_str(j, "item_id") {
            Ok(v) => v,
            Err(e) => return Err(e),
        };
        let institution_id = match opt_str(j, "institution_id") {
            Ok(v) => v,
            Err(e) => return Err(e),
        };
        let webhook = match opt_str(j, "webhook") {
            Ok(v) => v,
            Err(e) => return Err(e),
        };
        Ok(Item { item_id, institution_id, webhook })
    }
}

/// The response of a liabilities request.
#[derive(Clone, Debug)]
pub struct LiabilitiesResponse {
    /// The financial institution accounts associated with the Item.
    pub accounts: Vec<Account>,
    /// Metadata about the Item.
    pub item: Item,
    pub liabilities: Liabilities,
    /// A unique identifier for the request, for troubleshooting. Like all
    /// identifiers of the service, it is case sensitive.
    pub request_id: String,
}

/// Each of `items` holds an `Account`.
pub open spec fn all_accounts_ok(items: Seq<Json>) -> bool {
    forall|i: int| 0 <= i < items.len() ==> #[trigger] account_ok(items[i])
}

/// The `accounts` member of `j` is absent, `null`, or an array of objects that
/// each hold an `Account`.
pub open spec fn accounts_ok(j: Json) -> bool {
    match member(j, "accounts"@) {
        None => true,
        Some(Json::Array(items)) => all_accounts_ok(items@),
        _ => false,
    }
}

/// `accounts` holds the entries of the `accounts` member of `j`, and nothing
/// where that member is absent or `null`.
pub open spec fn accounts_from(j: Json, accounts: Seq<Account>) -> bool {
    match member(j, "accounts"@) {
        None => accounts.len() == 0,
        Some(Json::Array(items)) => {
            &&& items@.len() == accounts.len()
            &&& forall|i: int|
                0 <= i < items@.len() ==> #[trigger] account_from(items@[i], accounts[i])
        },
        _ => false,
    }
}

/// Reads the `accounts` member of `j`.
fn read_accounts(j: &Json) -> (r: Result<Vec<Account>, DecodeError>)
    ensures
        r is Ok <==> accounts_ok(*j),
        r matches Ok(v) ==> accounts_from(*j, v@),
{
    match find_member(j, "accounts") {
        None => Ok(Vec::new()),
        Some(Json::Array(items)) => {
            let mut out: Vec<Account> = Vec::new();
            let mut i: usize = 0;
            while i < items.len()
                invariant
                    0 <= i <= items@.len(),
                    out@.len() == i,
                    member(*j, "accounts"@) == Some(Json::Array(*items)),
                    forall|k: int| 0 <= k < i ==> #[trigger] account_ok(items@[k]),
                    forall|k: int| 0 <= k < i ==> #[trigger] account_from(items@[k], out@[k]),
                decreases items@.len() - i,
            {
                match Account::from_json(&items[i]) {
                    Ok(a) => out.push(a),
                    Err(e) => {
                        assert(!account_ok(items@[i as int]));
                        assert(!all_accounts_ok(items@));
                        return Err(e);
                    },
                }
                i = i + 1;
            }
            assert(accounts_from(*j, out@));
            Ok(out)
        },
        Some(_) => Err(DecodeError::WrongType("accounts".to_owned())),
    }
}

/// `j` is an object with the fields of a `LiabilitiesResponse`.
pub open spec fn liabilities_response_ok(j: Json) -> bool {
    &&& j is Object
    &&& accounts_ok(j)
    &&& (member(j, "item"@) matches Some(v) && item_ok(v))
    &&& (member(j, "liabilities"@) matches Some(v) && liabilities_ok(v))
    &&& str_at(j, "request_id"@) is Some
}

/// `x` holds the fields of the object `j`.
pub open spec fn liabilities_response_from(j: Json, x: LiabilitiesResponse) -> bool {
    &&& accounts_from(j, x.accounts@)
    &&& item_from(member(j, "item"@)->Some_0, x.item)
    &&& liabilities_from(member(j, "liabilities"@)->Some_0, x.liabilities)
    &&& str_at(j, "request_id"@) == Some(x.request_id@)
}

impl LiabilitiesResponse {
    /// Reads a `LiabilitiesResponse` from a JSON object; a required field that
    /// is absent is an error, never a made-up value.
    pub fn from_json(j: &Json) -> (r: Result<LiabilitiesResponse, DecodeError>)
        ensures
            r is Ok <==> liabilities_response_ok(*j),
            r matches Ok(x) ==> liabilities_response_from(*j, x),
            !(*j is Object) ==> r matches Err(DecodeError::NotAnObject),
    {
        if !(matches!(j, Json::Object(_))) {
            return Err(DecodeError::NotAnObject);
        }
        let accounts = match read_accounts(j) {
            Ok(v) => v,
            Err(e) => return Err(e),
        };
        let item = match req_object(j, "item") {
            Ok(v) => match Item::from_json(v) {
                Ok(x) => x,
                Err(e) => return Err(e),
            },
            Err(e) => return Err(e),
        };
        let liabilities = match req_object(j, "liabilities") {
            Ok(v) => match Liabilities::from_json(v) {
                Ok(x) => x,
                Err(e) => return Err(e),
            },
            Err(e) => return Err(e),
        };
        let request_id = match req_str(j, "request_id") {
            Ok(v) => v,
            Err(e) => return Err(e),
        };
        Ok(LiabilitiesResponse { accounts, item, liabilities, request_id })
    }
}

/// A response whose `accounts` member is absent or `null` decodes to no
/// accounts.
pub proof fn lemma_absent_accounts_are_empty(j: Json, x: LiabilitiesResponse)
    requires
        liabilities_response_from(j, x),
        member(j, "accounts"@) is None,
    ensures
        x.accounts@.len() == 0,
{
}

/// Options for a liabilities request.
#[derive(Clone, Debug)]
pub struct LiabilitiesRequestOptions {
    /// The accounts of the Item to retrieve; `None` asks for all of them.
    /// An error comes back if an identifier does not belong to the Item.
    pub account_ids: Option<Vec<String>>,
}

impl Default for LiabilitiesRequestOptions {
    fn default() -> (r: LiabilitiesRequestOptions)
        ensures
            r.account_ids is None,
    {
        LiabilitiesRequestOptions { account_ids: None }
    }
}

/// The account identifiers that `o` sends: none where it holds no list.
pub open spec fn account_ids_of(o: LiabilitiesRequestOptions) -> Seq<Seq<char>> {
    match o.account_ids {
        Some(ids) => ids@.map_values(|s: String| s@),
        None => Seq::empty(),
    }
}

/// `j` is an array of the strings `strs`, in order.
pub open spec fn string_array(j: Json, strs: Seq<Seq<char>>) -> bool {
    &&& j is Array
    &&& j->Array_0@.len() == strs.len()
    &&& forall|i: int|
        0 <= i < strs.len() ==> (#[trigger] j->Array_0@[i] matches Json::Str(s) && s@ == strs[i])
}

/// `j` is the JSON form of the options `o`: an object whose one member,
/// `account_ids`, is always an array, empty where `o` holds no list.
pub open spec fn options_json(j: Json, o: LiabilitiesRequestOptions) -> bool {
    &&& j is Object
    &&& j->Object_0@.len() == 1
    &&& member(j, "account_ids"@) matches Some(a) && string_array(a, account_ids_of(o))
}

/// An array of the strings `strs`.
fn strings_to_json(strs: &Vec<String>) -> (r: Json)
    ensures
        string_array(r, strs@.map_values(|s: String| s@)),
{
    let mut items: Vec<Json> = Vec::new();
    let mut i: usize = 0;
    while i < strs.len()
        invariant
            0 <= i <= strs@.len(),
            items@.len() == i,
            forall|k: int|
                0 <= k < i ==> (#[trigger] items@[k] matches Json::Str(s) && s@ == strs@[k]@),
        decreases strs@.len() - i,
    {
        items.push(Json::Str(strs[i].clone()));
        i = i + 1;
    }
    Json::Array(items)
}

impl LiabilitiesRequestOptions {
    /// The JSON form of these options. An absent list of accounts is written
    /// as an empty array, never as `null` and never left out.
    pub fn to_json(&self) -> (r: Json)
        ensures
            options_json(r, *self),
    {
        let ids = match &self.account_ids {
            Some(v) => strings_to_json(v),
            None => Json::Array(Vec::new()),
        };
        let mut fields: Vec<(String, Json)> = Vec::new();
        fields.push(("account_ids".to_owned(), ids));
        let r = Json::Object(fields);
        assert(fields@.drop_first().len() == 0);
        r
    }
}

/// The JSON form of an optional string: the string, or `null`.
pub open spec fn opt_str_json(o: Option<String>) -> Json {
    match o {
        Some(s) => Json::Str(s),
        None => Json::Null,
    }
}

/// The JSON form of an optional `u32`: the number, or `null`.
pub open spec fn opt_u32_json(o: Option<u32>) -> Json {
    match o {
        Some(n) => Json::Number(Some(n as u64)),
        None => Json::Null,
    }
}

fn write_opt_str(o: &Option<String>) -> (r: Json)
    ensures
        r == opt_str_json(*o),
{
    match o {
        Some(s) => Json::Str(s.clone()),
        None => Json::Null,
    }
}

fn write_opt_u32(o: &Option<u32>) -> (r: Json)
    ensures
        r == opt_u32_json(*o),
{
    match o {
        Some(n) => Json::Number(Some(*n as u64)),
        None => Json::Null,
    }
}

/// An object of two members, `first` and `type`, with the given values.
fn object_with_type(first: &str, a: Json, t: Json) -> (r: Json)
    requires
        first@ != "type"@,
    ensures
        r is Object,
        member(r, first@) == (if a is Null {
            None
        } else {
            Some(a)
        }),
        member(r, "type"@) == (if t is Null {
            None
        } else {
            Some(t)
        }),
{
    let mut fields: Vec<(String, Json)> = Vec::new();
    fields.push((first.to_owned(), a));
    fields.push(("type".to_owned(), t));
    let ghost s = fields@;
    assert(s.drop_first().drop_first().len() == 0);
    assert(lookup(s, first@) == Some(a));
    assert(lookup(s.drop_first(), "type"@) == Some(t));
    Json::Object(fields)
}

impl Account {
    /// The JSON form of this account; its kind goes under the key `type`.
    pub fn to_json(&self) -> (r: Json)
        ensures
            account_ok(r),
            account_from(r, *self),
    {
        let mut fields: Vec<(String, Json)> = Vec::new();
        fields.push(("account_id".to_owned(), Json::Str(self.account_id.clone())));
        fields.push(("mask".to_owned(), write_opt_str(&self.mask)));
        fields.push(("name".to_owned(), write_opt_str(&self.name)));
        fields.push(("official_name".to_owned(), write_opt_str(&self.official_name)));
        fields.push(("type".to_owned(), write_opt_str(&self.account_type)));
        fields.push(("subtype".to_owned(), write_opt_str(&self.subtype)));
        proof {
            // Each key is found where it was pushed, as no earlier key equals it.
            reveal_strlit("account_id");
            reveal_strlit("mask");
            reveal_strlit("name");
            reveal_strlit("official_name");
            reveal_strlit("type");
            reveal_strlit("subtype");
            let s = fields@;
            assert forall|n: int| 0 <= n < 0 implies #[trigger] s[n].0@ != "account_id"@ by {
            }
            lemma_lookup_first(s, 0, "account_id"@);
            assert("account_id"@[0] != "mask"@[0] || "account_id"@.len() != "mask"@.len() || "account_id"@[1] != "mask"@[1]);
            assert(s[0].0@ != "mask"@);
            assert forall|n: int| 0 <= n < 1 implies #[trigger] s[n].0@ != "mask"@ by {
                if n == 0 {}
            }
            lemma_lookup_first(s, 1, "mask"@);
            assert("account_id"@[0] != "name"@[0] || "account_id"@.len() != "name"@.len() || "account_id"@[1] != "name"@[1]);
            assert(s[0].0@ != "name"@);
            assert("mask"@[0] != "name"@[0] || "mask"@.len() != "name"@.len() || "mask"@[1] != "name"@[1]);
            assert(s[1].0@ != "name"@);
            assert forall|n: int| 0 <= n < 2 implies #[trigger] s[n].0@ != "name"@ by {
                if n == 0 {} else if n == 1 {}
            }
            lemma_lookup_first(s, 2, "name"@);
            assert("account_id"@[0] != "official_name"@[0] || "account_id"@.len() != "official_name"@.len() || "account_id"@[1] != "official_name"@[1]);
            assert(s[0].0@ != "official_name"@);
            assert("mask"@[0] != "official_name"@[0] || "mask"@.len() != "official_name"@.len() || "mask"@[1] != "official_name"@[1]);
            assert(s[1].0@ != "official_name"@);
            assert("name"@[0] != "official_name"@[0] || "name"@.len() != "official_name"@.len() || "name"@[1] != "official_name"@[1]);
            assert(s[2].0@ != "official_name"@);
            assert forall|n: int| 0 <= n < 3 implies #[trigger] s[n].0@ != "official_name"@ by {
                if n == 0 {} else if n == 1 {} else if n == 2 {}
            }
            lemma_lookup_first(s, 3, "official_name"@);
            assert("account_id"@[0] != "type"@[0] || "account_id"@.len() != "type"@.len() || "account_id"@[1] != "type"@[1]);
            assert(s[0].0@ != "type"@);
            assert("mask"@[0] != "type"@[0] || "mask"@.len() != "type"@.len() || "mask"@[1] != "type"@[1]);
            assert(s[1].0@ != "type"@);
            assert("name"@[0] != "type"@[0] || "name"@.len() != "type"@.len() || "name"@[1] != "type"@[1]);
            assert(s[2].0@ != "type"@);
            assert("official_name"@[0] != "type"@[0] || "official_name"@.len() != "type"@.len() || "official_name"@[1] != "type"@[1]);
            assert(s[3].0@ != "type"@);
            assert forall|n: int| 0 <= n < 4 implies #[trigger] s[n].0@ != "type"@ by {
                if n == 0 {} else if n == 1 {} else if n == 2 {} else if n == 3 {}
            }
            lemma_lookup_first(s, 4, "type"@);
            assert("account_id"@[0] != "subtype"@[0] || "account_id"@.len() != "subtype"@.len() || "account_id"@[1] != "subtype"@[1]);
            assert(s[0].0@ != "subtype"@);
            assert("mask"@[0] != "subtype"@[0] || "mask"@.len() != "subtype"@.len() || "mask"@[1] != "subtype"@[1]);
            assert(s[1].0@ != "subtype"@);
            assert("name"@[0] != "subtype"@[0] || "name"@.len() != "subtype"@.len() || "name"@[1] != "subtype"@[1]);
            assert(s[2].0@ != "subtype"@);
            assert("official_name"@[0] != "subtype"@[0] || "official_name"@.len() != "subtype"@.len() || "official_name"@[1] != "subtype"@[1]);
            assert(s[3].0@ != "subtype"@);
            assert("type"@[0] != "subtype"@[0] || "type"@.len() != "subtype"@.len() || "type"@[1] != "subtype"@[1]);
            assert(s[4].0@ != "subtype"@);
            assert forall|n: int| 0 <= n < 5 implies #[trigger] s[n].0@ != "subtype"@ by {
                if n == 0 {} else if n == 1 {} else if n == 2 {} else if n == 3 {} else if n == 4 {}
            }
            lemma_lookup_first(s, 5, "subtype"@);
        }
        Json::Object(fields)
    }
}

impl InterestRate {
    /// The JSON form of this rate; the kind of rate goes under the key `type`.
    pub fn to_json(&self) -> (r: Json)
        ensures
            interest_rate_ok(r),
            interest_rate_from(r, *self),
    {
        proof {
            reveal_strlit("percentage");
            reveal_strlit("type");
            assert("percentage"@.len() != "type"@.len());
        }
        object_with_type("percentage", write_opt_u32(&self.percentage), write_opt_str(&self.interest_rate_type))
    }
}

impl LoanStatus {
    /// The JSON form of this status; its kind goes under the key `type`.
    pub fn to_json(&self) -> (r: Json)
        ensures
            loan_status_ok(r),
            loan_status_from(r, *self),
    {
        proof {
            reveal_strlit("end_date");
            reveal_strlit("type");
            assert("end_date"@.len() != "type"@.len());
        }
        object_with_type("end_date", write_opt_str(&self.end_date), write_opt_str(&self.loan_status_type))
    }
}

impl RepaymentPlan {
    /// The JSON form of this plan; its kind goes under the key `type`.
    pub fn to_json(&self) -> (r: Json)
        ensures
            repayment_plan_ok(r),
            repayment_plan_from(r, *self),
    {
        proof {
            reveal_strlit("description");
            reveal_strlit("type");
            assert("description"@.len() != "type"@.len());
        }
        object_with_type("description", write_opt_str(&self.description), write_opt_str(&self.repaymentplan_type))
    }
}

/// Reading an `InterestRate` from `j` and writing it out as `r` keeps its kind under
/// the same wire key, `type`, with the same text.
pub proof fn lemma_interest_rate_type_key(j: Json, x: InterestRate, r: Json)
    requires
        interest_rate_from(j, x),
        interest_rate_from(r, x),
    ensures
        str_at(r, "type"@) == str_at(j, "type"@),
        str_at(r, "type"@) == opt_view(x.interest_rate_type),
{
}

/// Reading a `LoanStatus` from `j` and writing it out as `r` keeps its kind under
/// the same wire key, `type`, with the same text.
pub proof fn lemma_loan_status_type_key(j: Json, x: LoanStatus, r: Json)
    requires
        loan_status_from(j, x),
        loan_status_from(r, x),
    ensures
        str_at(r, "type"@) == str_at(j, "type"@),
        str_at(r, "type"@) == opt_view(x.loan_status_type),
{
}

/// Reading a `RepaymentPlan` from `j` and writing it out as `r` keeps its kind under
/// the same wire key, `type`, with the same text.
pub proof fn lemma_repayment_plan_type_key(j: Json, x: RepaymentPlan, r: Json)
    requires
        repayment_plan_from(j, x),
        repayment_plan_from(r, x),
    ensures
        str_at(r, "type"@) == str_at(j, "type"@),
        str_at(r, "type"@) == opt_view(x.repaymentplan_type),
{
}

/// Reading an `Account` from `j` and writing it out as `r` keeps its kind
/// under the same wire key, `type`, with the same text.
pub proof fn lemma_account_type_key(j: Json, x: Account, r: Json)
    requires
        account_from(j, x),
        account_from(r, x),
    ensures
        str_at(r, "type"@) == str_at(j, "type"@),
        str_at(r, "type"@) == opt_view(x.account_type),
{
}

} // verus!
