use vstd::prelude::*;

use vstd::string::StringSliceAdditionalSpecFns;
use vstd::utf8::encode_utf8;

use crate::creds::Credentials;
use crate::model::{MigrationRequest, RepositoryDescriptor};
use crate::text::{dec_digits, u64_to_decimal};

verus! {

/// What base64::encode returns for the given bytes: standard-alphabet base64
/// with padding, a function of the bytes alone.
pub uninterp spec fn base64_of(bytes: Seq<u8>) -> Seq<char>;

/// Relies on base64::encode: encodes the UTF-8 bytes of `s` as standard
/// base64 with padding, a function of those bytes alone.
#[verifier::external_body]
fn encode_base64(s: &str) -> (r: String)
    ensures
        r@ == base64_of(s.spec_bytes()),
{
    base64::encode(s.as_bytes())
}

/// The value of a Basic-Auth header for `user` and `secret`.
pub open spec fn basic_auth_of(user: Seq<char>, secret: Seq<char>) -> Seq<char> {
    "Basic "@ + base64_of(encode_utf8(user + ":"@ + secret))
}

/// Builds the Basic-Auth header value `Basic <base64(user:secret)>`.
pub fn basic_auth_value(user: &str, secret: &str) -> (r: String)
    ensures
        r@ == basic_auth_of(user@, secret@),
{
    let mut pair = user.to_owned();
    pair.append(":");
    pair.append(secret);
    proof {
        assert(pair@ =~= user@ + ":"@ + secret@);
    }
    let encoded = encode_base64(pair.as_str());
    let mut out = "Basic ".to_owned();
    out.append(encoded.as_str());
    out
}

/// The header values one request to either API carries. Only the values are
/// built here; attaching them to an HTTP request is the caller's business.
pub struct HeaderValues {
    pub authorization: String,
    pub user_agent: String,
    pub accept: String,
    pub content_type: Option<String>,
}

/// Header values for source API page requests: Basic-Auth from the source
/// credentials, the fixed user agent, and the source API's versioned media
/// type.
pub fn source_header_values(creds: &Credentials) -> (r: HeaderValues)
    ensures
        r.authorization@ == basic_auth_of(creds.source_user@, creds.source_secret@),
        r.user_agent@ == "api"@,
        r.accept@ == "application/vnd.github.v3+json"@,
        r.content_type is None,
{
    HeaderValues {
        authorization: basic_auth_value(creds.source_user.as_str(), creds.source_secret.as_str()),
        user_agent: "api".to_owned(),
        accept: "application/vnd.github.v3+json".to_owned(),
        content_type: None,
    }
}

/// Header values for destination API migration requests: Basic-Auth from the
/// destination credentials, the fixed user agent, and JSON in both
/// directions.
pub fn dest_header_values(creds: &Credentials) -> (r: HeaderValues)
    ensures
        r.authorization@ == basic_auth_of(creds.dest_user@, creds.dest_secret@),
        r.user_agent@ == "api"@,
        r.accept@ == "application/json"@,
        r.content_type matches Some(c) && c@ == "application/json"@,
{
    HeaderValues {
        authorization: basic_auth_value(creds.dest_user.as_str(), creds.dest_secret.as_str()),
        user_agent: "api".to_owned(),
        accept: "application/json".to_owned(),
        content_type: Some("application/json".to_owned()),
    }
}

/// The URL of one page of the authenticated user's repositories on the
/// source API.
pub fn page_url(source_base: &str, per_page: u64, page: u64) -> (r: String)
    ensures
        r@ == source_base@ + "user/repos?per_page="@ + dec_digits(per_page as nat) + "&page="@
            + dec_digits(page as nat),
{
    let mut url = source_base.to_owned();
    url.append("user/repos?per_page=");
    let pp = u64_to_decimal(per_page);
    url.append(pp.as_str());
    url.append("&page=");
    let pg = u64_to_decimal(page);
    url.append(pg.as_str());
    url
}

/// The migration endpoint of the destination API under `dest_base`.
pub fn migrate_url(dest_base: &str) -> (r: String)
    ensures
        r@ == dest_base@ + "/api/v1/repos/migrate"@,
{
    let mut url = dest_base.to_owned();
    url.append("/api/v1/repos/migrate");
    url
}

/// The web base every clone URL starts from.
pub open spec fn source_web_base() -> Seq<char> {
    "https://github.com/"@
}

/// The HTTPS clone URL of one source repository, with no trailing slash.
pub open spec fn clone_url_of(owner: Seq<char>, name: Seq<char>) -> Seq<char> {
    source_web_base() + owner + "/"@ + name
}

/// Maps one accepted repository and the run's credentials to the migration
/// request the destination API will receive: the deterministic clone URL,
/// the run-level mirror flag, privacy copied from the repository, and the
/// source credentials so the destination can clone a private source.
pub fn build_request(
    descriptor: &RepositoryDescriptor,
    creds: &Credentials,
    mirror_requested: bool,
) -> (r: MigrationRequest)
    ensures
        r@.clone_url == clone_url_of(descriptor@.owner, descriptor@.name),
        r@.repo_name == descriptor@.name,
        r@.dest_owner == creds.dest_user@,
        r@.mirror == mirror_requested,
        r@.private == (descriptor@.visibility is Private),
        r@.auth_user == creds.source_user@,
        r@.auth_secret == creds.source_secret@,
{
    let mut clone_url = "https://github.com/".to_owned();
    clone_url.append(descriptor.owner.as_str());
    clone_url.append("/");
    clone_url.append(descriptor.name.as_str());
    MigrationRequest {
        clone_url,
        repo_name: descriptor.name.clone(),
        dest_owner: creds.dest_user.clone(),
        mirror: mirror_requested,
        private: crate::visibility_is_private(descriptor.visibility),
        auth_user: creds.source_user.clone(),
        auth_secret: creds.source_secret.clone(),
    }
}

/// The request a descriptor maps to, as `build_request` states it.
pub open spec fn request_of(
    d: crate::model::DescriptorModel,
    source_user: Seq<char>,
    source_secret: Seq<char>,
    dest_user: Seq<char>,
    mirror_requested: bool,
) -> crate::model::RequestModel {
    crate::model::RequestModel {
        clone_url: clone_url_of(d.owner, d.name),
        repo_name: d.name,
        dest_owner: dest_user,
        mirror: mirror_requested,
        private: d.visibility is Private,
        auth_user: source_user,
        auth_secret: source_secret,
    }
}

/// Maps every accepted repository to its migration request, one for one and
/// in enumeration order.
pub fn build_requests(
    descriptors: &Vec<RepositoryDescriptor>,
    creds: &Credentials,
    mirror_requested: bool,
) -> (r: Vec<MigrationRequest>)
    ensures
        r@.map_values(|q: MigrationRequest| q@) == descriptors@.map_values(
            |d: RepositoryDescriptor| d@,
        ).map_values(
            |m: crate::model::DescriptorModel| request_of(
                m,
                creds.source_user@,
                creds.source_secret@,
                creds.dest_user@,
                mirror_requested,
            ),
        ),
{
    let ghost models = descriptors@.map_values(|d: RepositoryDescriptor| d@);
    let ghost wanted = models.map_values(
        |m: crate::model::DescriptorModel| request_of(
            m,
            creds.source_user@,
            creds.source_secret@,
            creds.dest_user@,
            mirror_requested,
        ),
    );
    let mut out: Vec<MigrationRequest> = Vec::new();
    let mut i: usize = 0;
    while i < descriptors.len()
        invariant
            i <= descriptors@.len(),
            models == descriptors@.map_values(|d: RepositoryDescriptor| d@),
            wanted == models.map_values(
                |m: crate::model::DescriptorModel| request_of(
                    m,
                    creds.source_user@,
                    creds.source_secret@,
                    creds.dest_user@,
                    mirror_requested,
                ),
            ),
            out@.map_values(|q: MigrationRequest| q@) =~= wanted.take(i as int),
        decreases descriptors@.len() - i,
    {
        let request = build_request(&descriptors[i], creds, mirror_requested);
        proof {
            assert(request@ == wanted[i as int]);
            assert(wanted.take(i + 1) =~= wanted.take(i as int).push(wanted[i as int]));
        }
        out.push(request);
        i += 1;
    }
    proof {
        assert(wanted.take(descriptors@.len() as int) =~= wanted);
    }
    out
}

} // verus!
