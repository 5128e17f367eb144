//! Records that the Cloudflare API answers with, and the credentials that
//! authorize a request to it.
use vstd::prelude::*;

verus! {

/// An authorizer that sends a bearer token ("Authorization: Bearer xxx").
#[derive(Debug, Clone)]
pub struct BearerAuthorizer {
    /// The bearer token.
    pub token: String,
}

/// An authorizer that sends an API key (in the X-Auth-Key header).
#[derive(Debug, Clone)]
pub struct ApiKeyAuthorizer {
    /// The API key.
    pub key: String,
}

/// An error or a message of the API: both are written the same way.
#[derive(Debug, Clone)]
pub struct CloudflareMessage {
    /// The error or message code, an integer >= 1000.
    pub code: u32,
    /// A human-readable message.
    pub message: String,
}

/// Paging information that some responses carry.
#[derive(Debug, Clone)]
pub struct CloudflareResultInfo {
    /// The page number of the current page.
    pub page: u32,
    /// The number of items per page.
    pub per_page: u32,
    /// The total number of pages.
    pub total_pages: u32,
    /// The number of items on this page.
    pub count: u32,
    /// The number of items that would be available without any filtering.
    pub total_count: u32,
}

/// The envelope around every API result.
#[derive(Debug, Clone)]
pub struct CloudflareResponse<T> {
    /// The result of the API call.
    pub result: T,
    /// Whether the API call was successful.
    pub success: bool,
    /// Errors returned by the API.
    pub errors: Vec<CloudflareMessage>,
    /// Messages returned by the API.
    pub messages: Vec<CloudflareMessage>,
}

/// The envelope around an API result that comes with paging information.
#[derive(Debug, Clone)]
pub struct CloudflareResponseWithInfo<T> {
    /// The result of the API call.
    pub result: T,
    /// Whether the API call was successful.
    pub success: bool,
    /// Errors returned by the API.
    pub errors: Vec<CloudflareMessage>,
    /// Messages returned by the API.
    pub messages: Vec<CloudflareMessage>,
    /// Paging information.
    pub result_info: CloudflareResultInfo,
}

/// Account information.
#[derive(Debug, Clone)]
pub struct CloudflareAccount {
    /// The account identifier.
    pub id: String,
    /// The account name.
    pub name: String,
}

/// The owner of a zone.
#[derive(Debug, Clone)]
pub struct CloudflareOwner {
    /// The owner identifier, e.g. `023e105f4ecef8ad9ca31a8372d0c353`.
    pub id: Option<String>,
    /// The owner's name, e.g. `Cloudflare, Inc.`.
    pub name: Option<String>,
    /// The kind of owner, e.g. `organization` (the field `type` on the wire).
    pub type_: String,
}

/// Zone metadata.
#[derive(Debug, Clone)]
pub struct CloudflareZoneMetadata {
    /// The zone is only configured for CDN.
    pub cdn_only: bool,
    /// Number of custom certificates the zone can have.
    pub custom_certificate_quota: i32,
    /// The zone is only configured for DNS.
    pub dns_only: bool,
    /// The zone is set up with Foundation DNS.
    pub foundation_dns: bool,
    /// Number of page rules the zone can have.
    pub page_rule_quota: i32,
    /// The zone has been flagged for phishing.
    pub phishing_detected: bool,
    /// Undocumented, e.g. `2`.
    pub step: i32,
}

/// One zone, as the List Zones endpoint returns it.
#[derive(Debug, Clone)]
pub struct CloudflareListZonesResponse {
    /// The account the zone belongs to.
    pub account: CloudflareAccount,
    /// When proof of ownership was last detected and the zone made active.
    pub activated_on: String,
    /// When the zone was created.
    pub created_on: String,
    /// Seconds until development mode expires (positive) or since it last
    /// expired (negative); 0 if it was never enabled.
    pub development_mode: i32,
    /// The zone identifier, at most 32 characters.
    pub id: String,
    /// When the zone was last modified.
    pub modified_on: String,
    /// The domain name, at most 253 characters.
    pub name: String,
    /// DNS host at the time of switching to Cloudflare.
    pub original_dnshost: Option<String>,
    /// Name servers before moving to Cloudflare.
    pub original_name_servers: Option<Vec<String>>,
    /// Registrar at the time of switching to Cloudflare.
    pub original_registrar: Option<String>,
    /// The owner of the zone.
    pub owner: CloudflareOwner,
    /// Domains used for custom name servers.
    pub vanity_name_servers: Option<Vec<String>>,
    /// The tenant the zone is in.
    pub tenant: CloudflareTenant,
    /// The tenant unit the zone is in.
    pub tenant_unit: CloudflareTenantUnit,
    /// The permissions available on the zone.
    pub permissions: Vec<String>,
    /// The plan the zone is on.
    pub plan: CloudflarePlan,
    /// The zone's status.
    pub status: String,
    /// Whether the zone is paused.
    pub paused: bool,
}

/// A zone's plan.
#[derive(Debug, Clone)]
pub struct CloudflarePlan {
    /// The plan identifier.
    pub id: String,
    /// The plan name.
    pub name: String,
    /// The IEEE 754 bit pattern of the plan's price (a 64-bit float on the wire).
    pub price_bits: u64,
    /// The plan currency.
    pub currency: String,
    /// The plan frequency.
    pub frequency: String,
    /// Is the plan a subscription?
    pub is_subscribed: bool,
    /// Can the plan be a subscription?
    pub can_subscribe: bool,
    /// The plan's legacy identifier.
    pub legacy_id: String,
    /// Does the plan have a legacy discount?
    pub legacy_discount: bool,
    /// Is the plan externally managed?
    pub externally_managed: bool,
}

/// A tenant unit.
#[derive(Debug, Clone)]
pub struct CloudflareTenantUnit {
    /// The tenant unit identifier.
    pub id: Option<String>,
}

/// A tenant.
#[derive(Debug, Clone)]
pub struct CloudflareTenant {
    /// The tenant identifier.
    pub id: Option<String>,
    /// The tenant name.
    pub name: Option<String>,
}

/// An organization that a user belongs to.
#[derive(Debug, Clone)]
pub struct CloudflareOrganizationUserDetails {
    /// The organization identifier.
    pub id: String,
    /// The organization name.
    pub name: String,
    /// The user's status in the organization.
    pub status: String,
    /// The organization permissions the user has.
    pub permissions: Vec<String>,
    /// The organization roles the user has.
    pub roles: Vec<String>,
}

/// The result of the User Details endpoint.
#[derive(Debug, Clone)]
pub struct CloudflareUserDetailsResponse {
    /// The user's identifier.
    pub id: String,
    /// The user's email address.
    pub email: String,
    /// The user's username.
    pub username: String,
    /// The user's first name.
    pub first_name: Option<String>,
    /// The user's last name.
    pub last_name: Option<String>,
    /// The user's telephone number.
    pub telephone: Option<String>,
    /// The user's country.
    pub country: Option<String>,
    /// The user's zipcode.
    pub zipcode: Option<String>,
    /// Does the user have two-factor authentication enabled?
    pub two_factor_authentication_enabled: bool,
    /// Is the user's two-factor authentication locked?
    pub two_factor_authentication_locked: bool,
    /// When the user was created.
    pub created_on: String,
    /// When the user was last modified.
    pub modified_on: String,
    /// The user's organizations.
    pub organizations: Vec<CloudflareOrganizationUserDetails>,
    /// Whether the user has pro zones.
    pub has_pro_zones: bool,
    /// Whether the user has business zones.
    pub has_business_zones: bool,
    /// Whether the user has enterprise zones.
    pub has_enterprise_zones: bool,
    /// Whether the user's account is suspended.
    pub suspended: bool,
    /// The user's beta entitlements.
    pub betas: Vec<String>,
}

/// One DNS record of a zone. The cache passes records through as they came.
#[derive(Debug, Clone)]
pub struct DNSRecord {
    /// The record's content: the address for A and AAAA records.
    pub content: String,
    /// The record name; @ for the root record.
    pub name: String,
    /// Whether the record is proxied by Cloudflare.
    pub proxied: Option<bool>,
    /// The record type (A, AAAA, CNAME, ...), the field `type` on the wire.
    pub type_: String,
    /// Notes about the record; no effect on DNS answers.
    pub comment: Option<String>,
    /// When the record was created.
    pub created_on: String,
    /// The record identifier.
    pub id: String,
    /// Whether the record is managed by Cloudflare and cannot be changed.
    pub locked: bool,
    /// Extra Cloudflare-specific information.
    pub meta: Meta,
    /// When the record was last modified.
    pub modified_on: Option<String>,
    /// Whether the record can be proxied.
    pub proxiable: bool,
    /// Custom tags.
    pub tags: Vec<String>,
    /// Time to live; 1 means automatic. Valid values: 60 to 86400, 0, 1.
    pub ttl: u32,
    /// The zone identifier.
    pub zone_id: Option<String>,
    /// The zone name.
    pub zone_name: String,
}

/// Extra Cloudflare-specific information about a DNS record.
#[derive(Debug, Clone)]
pub struct Meta {
    /// Whether Cloudflare added the record during the initial setup.
    pub auto_added: Option<bool>,
    /// The service the record was imported from.
    pub source: Option<String>,
}

} // verus!
