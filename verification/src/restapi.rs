//! The request paths and queries of the service's REST API, built and
//! specified exactly. The HTTP calls themselves are the caller's business;
//! what varies in a path — an identifier, a package URL, a random offset —
//! is worked in here, percent-encoded where the endpoint expects it.

use crate::text;
use crate::utils;
use rand::RngExt;
use vstd::prelude::*;
use vstd::string::StringExecFns;

verus! {

/// The percent-encoded form of a string.
pub uninterp spec fn url_encoded(s: Seq<char>) -> Seq<char>;

/// A character that percent-encoding passes through unchanged: an ASCII
/// letter or digit, or one of `-`, `_`, `.`, `~`.
pub open spec fn url_unreserved(c: char) -> bool {
    ||| 'a' <= c <= 'z'
    ||| 'A' <= c <= 'Z'
    ||| '0' <= c <= '9'
    ||| c == '-'
    ||| c == '_'
    ||| c == '.'
    ||| c == '~'
}

/// Relies on urlencoding::encode: percent-encodes every byte except ASCII
/// alphanumerics and `-`, `_`, `.`, `~`, so a string of unreserved
/// characters passes through unchanged. The result depends on the
/// characters alone.
#[verifier::external_body]
fn url_encode(s: &str) -> (r: String)
    ensures
        r@ == url_encoded(s@),
        s@.len() == 0 ==> r@.len() == 0,
        (forall|i: int| 0 <= i < s@.len() ==> url_unreserved(s@[i])) ==> r@ == s@,
{
    urlencoding::encode(s).into_owned()
}

/// Relies on rand::rng and RngExt::random_range: a draw over the inclusive
/// range `0..=total` yields a value inside it, whatever the draw.
#[verifier::external_body]
fn random_offset(total: u64) -> (r: u64)
    ensures
        r <= total,
{
    rand::rng().random_range(0..=total)
}

/// The advisory listing endpoint under `host`, trailing slashes of the host
/// stripped; used once at startup to read the advisory total.
pub fn advisory_total_url(host: &str) -> (r: String)
    ensures
        r@ == text::trimmed_trailing(host@, '/') + "/api/v2/advisory"@,
{
    let mut out = text::trim_trailing(host, '/');
    out.append("/api/v2/advisory");
    out
}

/// A random offset into the advisory listing together with the query that
/// reads the single advisory there.
pub fn random_advisory_request(total: u64) -> (r: (u64, String))
    ensures
        r.0 <= total,
        r.1@ == "/api/v2/advisory?offset="@ + text::decimal_rep(r.0 as int) + "&limit=1"@,
{
    let offset = random_offset(total);
    let mut out = String::from_str("/api/v2/advisory?offset=");
    let digits = text::decimal_string(offset);
    out.append(digits.as_str());
    out.append("&limit=1");
    (offset, out)
}

/// The path of one advisory, addressed by the percent-encoded URN of its
/// UUID.
pub fn advisory_path(id: &str) -> (r: String)
    ensures
        r@ == "/api/v2/advisory/"@ + url_encoded("urn:uuid:"@ + id@),
{
    let urn = utils::urn_uuid(id);
    let enc = url_encode(urn.as_str());
    let mut out = String::from_str("/api/v2/advisory/");
    out.append(enc.as_str());
    out
}

/// The download path of one advisory, addressed like `advisory_path`.
pub fn download_advisory_path(id: &str) -> (r: String)
    ensures
        r@ == "/api/v2/advisory/"@ + url_encoded("urn:uuid:"@ + id@) + "/download"@,
{
    let mut out = advisory_path(id);
    out.append("/download");
    out
}

/// The advisory-label listing query: labels filtered by the (encoded) text
/// "type", at most 1000 of them.
pub fn advisory_labels_query() -> (r: String)
    ensures
        r@ == "/api/v2/advisory-labels?filter_text="@ + url_encoded("type"@) + "&limit=1000"@,
{
    let enc = url_encode("type");
    let mut out = String::from_str("/api/v2/advisory-labels?filter_text=");
    out.append(enc.as_str());
    out.append("&limit=1000");
    out
}

/// The path of one advisory addressed by its raw identifier, as deletion
/// uses it.
pub fn delete_advisory_path(id: &str) -> (r: String)
    ensures
        r@ == "/api/v2/advisory/"@ + id@,
{
    let mut out = String::from_str("/api/v2/advisory/");
    out.append(id);
    out
}

/// The label endpoint of one advisory.
pub fn advisory_label_path(id: &str) -> (r: String)
    ensures
        r@ == "/api/v2/advisory/"@ + id@ + "/label"@,
{
    let mut out = delete_advisory_path(id);
    out.append("/label");
    out
}

/// The path of one package, addressed by its identifier.
pub fn purl_path(purl_id: &str) -> (r: String)
    ensures
        r@ == "/api/v2/purl/"@ + purl_id@,
{
    let mut out = String::from_str("/api/v2/purl/");
    out.append(purl_id);
    out
}

/// The path of one SBOM, addressed by its identifier.
pub fn sbom_path(sbom_id: &str) -> (r: String)
    ensures
        r@ == "/api/v2/sbom/"@ + sbom_id@,
{
    let mut out = String::from_str("/api/v2/sbom/");
    out.append(sbom_id);
    out
}

/// The advisories of one SBOM.
pub fn sbom_advisories_path(sbom_id: &str) -> (r: String)
    ensures
        r@ == "/api/v2/sbom/"@ + sbom_id@ + "/advisory"@,
{
    let mut out = sbom_path(sbom_id);
    out.append("/advisory");
    out
}

/// The packages of one SBOM.
pub fn sbom_packages_path(sbom_id: &str) -> (r: String)
    ensures
        r@ == "/api/v2/sbom/"@ + sbom_id@ + "/packages"@,
{
    let mut out = sbom_path(sbom_id);
    out.append("/packages");
    out
}

/// The SBOMs related to one SBOM.
pub fn sbom_related_path(sbom_id: &str) -> (r: String)
    ensures
        r@ == "/api/v2/sbom/"@ + sbom_id@ + "/related"@,
{
    let mut out = sbom_path(sbom_id);
    out.append("/related");
    out
}

/// The path of one vulnerability, addressed by its identifier.
pub fn vulnerability_path(id: &str) -> (r: String)
    ensures
        r@ == "/api/v2/vulnerability/"@ + id@,
{
    let mut out = String::from_str("/api/v2/vulnerability/");
    out.append(id);
    out
}

/// The SBOM lookup by (percent-encoded) package URL.
pub fn sbom_by_package_query(purl: &str) -> (r: String)
    ensures
        r@ == "/api/v2/sbom/by-package?purl="@ + url_encoded(purl@),
{
    let enc = url_encode(purl);
    let mut out = String::from_str("/api/v2/sbom/by-package?purl=");
    out.append(enc.as_str());
    out
}

/// The license identifiers of one SBOM, its identifier percent-encoded.
pub fn sbom_license_ids_path(sbom_id: &str) -> (r: String)
    ensures
        r@ == "/api/v2/sbom/"@ + url_encoded(sbom_id@) + "/all-license-ids"@,
{
    let enc = url_encode(sbom_id);
    let mut out = String::from_str("/api/v2/sbom/");
    out.append(enc.as_str());
    out.append("/all-license-ids");
    out
}

/// The deletion path for position `index` of a pre-selected SBOM pool, or
/// `None` once the pool is exhausted.
pub fn sbom_delete_path_at(pool: &Vec<String>, index: usize) -> (r: Option<String>)
    ensures
        index < pool@.len() ==> (r matches Some(p) && p@ == "/api/v2/sbom/"@
            + pool@[index as int]@),
        index >= pool@.len() ==> r is None,
{
    if index < pool.len() {
        let mut out = String::from_str("/api/v2/sbom/");
        out.append(pool[index].as_str());
        Some(out)
    } else {
        None
    }
}

} // verus!
