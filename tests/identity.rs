use cloudflare_dns_gui::api::{check_user_details, summarize_user_details};
use cloudflare_dns_gui::cloudflare::{
    CloudflareOrganizationUserDetails, CloudflareResponse, CloudflareUserDetailsResponse,
};
use cloudflare_dns_gui::models::FetchError;

fn organization(name: &str) -> CloudflareOrganizationUserDetails {
    CloudflareOrganizationUserDetails {
        id: format!("id-{name}"),
        name: name.to_string(),
        status: "member".to_string(),
        permissions: vec!["#zones:read".to_string()],
        roles: vec!["Administrator".to_string()],
    }
}

fn details(orgs: Vec<CloudflareOrganizationUserDetails>, suspended: bool) -> CloudflareUserDetailsResponse {
    CloudflareUserDetailsResponse {
        id: "023e105f4ecef8ad9ca31a8372d0c353".to_string(),
        email: "user@example.com".to_string(),
        username: "cfuser12345".to_string(),
        first_name: Some("John".to_string()),
        last_name: Some("Appleseed".to_string()),
        telephone: None,
        country: Some("US".to_string()),
        zipcode: None,
        two_factor_authentication_enabled: false,
        two_factor_authentication_locked: false,
        created_on: "2014-01-01T05:20:00.12345Z".to_string(),
        modified_on: "2014-01-01T05:20:00.12345Z".to_string(),
        organizations: orgs,
        has_pro_zones: false,
        has_business_zones: false,
        has_enterprise_zones: false,
        suspended,
        betas: vec![],
    }
}

fn envelope(result: CloudflareUserDetailsResponse) -> CloudflareResponse<CloudflareUserDetailsResponse> {
    CloudflareResponse { result, success: true, errors: vec![], messages: vec![] }
}

#[test]
fn summary_keeps_id_email_suspension_and_organization_names() {
    let summary = summarize_user_details(&details(vec![organization("Acme"), organization("Beta")], true));
    assert_eq!(summary.id, "023e105f4ecef8ad9ca31a8372d0c353");
    assert_eq!(summary.email, "user@example.com");
    assert!(summary.suspended);
    assert_eq!(summary.organizations, vec!["Acme".to_string(), "Beta".to_string()]);
}

#[test]
fn summary_of_user_without_organizations() {
    let summary = summarize_user_details(&details(vec![], false));
    assert!(!summary.suspended);
    assert!(summary.organizations.is_empty());
}

#[test]
fn accepted_answer_yields_the_summary() {
    let result = check_user_details(200, Some(envelope(details(vec![organization("Acme")], false))));
    let summary = result.unwrap();
    assert_eq!(summary.email, "user@example.com");
    assert_eq!(summary.organizations, vec!["Acme".to_string()]);
}

#[test]
fn other_status_is_refused() {
    let result = check_user_details(401, Some(envelope(details(vec![], false))));
    assert_eq!(result.err(), Some(FetchError::Status(401)));
    let result = check_user_details(204, None);
    assert_eq!(result.err(), Some(FetchError::Status(204)));
}

#[test]
fn unreadable_body_is_malformed() {
    assert_eq!(check_user_details(200, None).err(), Some(FetchError::Malformed));
}
