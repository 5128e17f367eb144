//! The computing side of the remote calls: what is kept of an answer.
use vstd::prelude::*;
use crate::cloudflare::{CloudflareOrganizationUserDetails, CloudflareResponse, CloudflareUserDetailsResponse};
use crate::models::{CustomUserDetails, FetchError};

verus! {

/// The only HTTP status under which a user details answer is accepted.
pub const STATUS_OK: u16 = 200;

/// The names of the organizations, in their order.
pub open spec fn organization_names(orgs: Seq<CloudflareOrganizationUserDetails>) -> Seq<String> {
    orgs.map_values(|o: CloudflareOrganizationUserDetails| o.name)
}

/// Reduces the user details to the summary that is cached.
pub fn summarize_user_details(details: &CloudflareUserDetailsResponse) -> (r: CustomUserDetails)
    ensures
        r.id == details.id,
        r.email == details.email,
        r.suspended == details.suspended,
        r.organizations@ == organization_names(details.organizations@),
{
    let mut names: Vec<String> = Vec::new();
    let mut i: usize = 0;
    while i < details.organizations.len()
        invariant
            i <= details.organizations.len(),
            names@.len() == i,
            forall|j: int| 0 <= j < i ==> names@[j] == details.organizations@[j].name,
        decreases details.organizations.len() - i,
    {
        names.push(details.organizations[i].name.clone());
        i += 1;
    }
    assert(names@ =~= organization_names(details.organizations@));
    CustomUserDetails {
        id: details.id.clone(),
        email: details.email.clone(),
        suspended: details.suspended,
        organizations: names,
    }
}

/// Decides what a user details answer yields: an answer under any status but
/// 200 is refused, one whose body could not be read (`None`) is malformed,
/// and otherwise the summary of the user is returned.
pub fn check_user_details(
    status: u16,
    body: Option<CloudflareResponse<CloudflareUserDetailsResponse>>,
) -> (r: Result<CustomUserDetails, FetchError>)
    ensures
        status != STATUS_OK ==> r == Err::<CustomUserDetails, FetchError>(FetchError::Status(status)),
        status == STATUS_OK && body is None ==> r == Err::<CustomUserDetails, FetchError>(FetchError::Malformed),
        status == STATUS_OK && body is Some ==> r is Ok && ({
            let (u, d) = (r->Ok_0, body->Some_0.result);
            &&& u.id == d.id
            &&& u.email == d.email
            &&& u.suspended == d.suspended
            &&& u.organizations@ == organization_names(d.organizations@)
        }),
{
    if status != STATUS_OK {
        return Err(FetchError::Status(status));
    }
    match body {
        None => Err(FetchError::Malformed),
        Some(response) => Ok(summarize_user_details(&response.result)),
    }
}

} // verus!
