use vstd::prelude::*;
use crate::api::DateTimeOffset;

verus! {

/// A user account of the directory. Only `display_name`, `given_name`, `id`,
/// `surname` and `user_principal_name` are always present.
#[derive(Debug, Clone)]
pub struct User {
    pub about_me: Option<String>,
    pub account_enabled: Option<bool>,
    pub age_group: Option<AgeGroup>,
    pub birthday: Option<String>,
    pub business_phones: Option<Vec<String>>,
    pub city: Option<String>,
    pub company_name: Option<String>,
    pub consent_provided_for_minor: Option<ConsentProvidedForMinor>,
    pub country: Option<String>,
    pub created_date_time: Option<String>,
    pub creation_type: Option<String>,
    pub deleted_date_time: Option<String>,
    pub department: Option<String>,
    pub display_name: String,
    pub employee_hire_date: Option<String>,
    pub employee_id: Option<String>,
    pub employee_type: Option<String>,
    pub external_user_state: Option<String>,
    pub external_user_state_change_date_time: Option<String>,
    pub fax_number: Option<String>,
    pub given_name: String,
    pub hire_date: Option<String>,
    pub id: String,
    pub identities: Option<Vec<ObjectIdentity>>,
    pub im_addresses: Option<Vec<String>>,
    pub interests: Option<Vec<String>>,
    pub is_resource_account: Option<bool>,
    pub job_title: Option<String>,
    pub last_password_change_date_time: Option<String>,
    pub legal_age_group_classification: Option<Option<LegalAgeGroupClassification>>,
    pub mail: Option<String>,
    pub mail_nickname: Option<String>,
    pub mobile_phone: Option<String>,
    pub my_site: Option<String>,
    pub office_location: Option<String>,
    pub on_premises_distinguished_name: Option<String>,
    pub on_premises_domain_name: Option<String>,
    pub on_premises_immutable_id: Option<String>,
    pub on_premises_last_sync_date_time: Option<String>,
    pub on_premises_sam_account_name: Option<String>,
    pub on_premises_security_identifier: Option<String>,
    pub on_premises_sync_enabled: Option<bool>,
    pub on_premises_user_principal_name: Option<String>,
    pub other_mails: Option<Vec<String>>,
    pub password_policies: Option<String>,
    pub past_projects: Option<Vec<String>>,
    pub postal_code: Option<String>,
    pub preferred_language: Option<String>,
    pub preferred_name: Option<String>,
    pub proxy_addresses: Option<Vec<String>>,
    pub refresh_tokens_valid_from_date_time: Option<String>,
    pub responsibilities: Option<Vec<String>>,
    pub schools: Option<Vec<String>>,
    pub show_in_address_list: Option<bool>,
    pub skills: Option<Vec<String>>,
    pub sign_in_sessions_valid_from_date_time: Option<DateTimeOffset>,
    pub state: Option<String>,
    pub street_address: Option<String>,
    pub surname: String,
    pub usage_location: Option<String>,
    pub user_principal_name: String,
    pub user_type: Option<String>,
}

/// The age group of a user.
#[derive(Debug, Clone)]
pub enum AgeGroup {
    Minor,
    NotAdult,
    Adult,
}

/// Whether consent was obtained for a minor.
#[derive(Debug, Clone)]
pub enum ConsentProvidedForMinor {
    Granted,
    Denied,
    NotRequired,
}

/// The legal age group of a user, as derived from `AgeGroup` and
/// `ConsentProvidedForMinor`.
#[derive(Debug, Clone)]
pub enum LegalAgeGroupClassification {
    MinorWithOutParentalConsent,
    MinorWithParentalConsent,
    MinorNoParentalConsentRequired,
    NotAdult,
    Adult,
}

/// An identity with which a user can sign in to the account.
#[derive(Debug, Clone)]
pub struct ObjectIdentity {
    /// The kind of sign-in name, such as `emailAddress` or `userName`.
    pub sign_in_type: String,
    /// The issuer of the identity.
    pub issuer: String,
    /// The unique identifier that the issuer assigned to the user.
    pub issuer_assigned_id: String,
}

} // verus!
