//! The load-test scenario: which stored objects each transaction kind
//! works on. The identifiers come from the target's database; reading them
//! is the caller's business, and `assemble` wires the values read into the
//! scenario exactly as the generator does, URN-prefixing where the API
//! expects URNs.

use crate::utils;
use crate::utils::DisplayVec;
use vstd::prelude::*;

verus! {

/// The parameters of one load-test run. A `None` deactivates the
/// transactions that would use the value.
pub struct Scenario {
    pub get_sbom: Option<String>,
    pub get_sbom_advisories: Option<String>,
    pub get_sbom_packages: Option<String>,
    pub get_sbom_related: Option<String>,
    pub get_vulnerability: Option<String>,
    pub sbom_by_package: Option<String>,
    pub sbom_license_ids: Option<String>,
    pub analyze_purl: Option<String>,
    pub get_purl_details: Option<String>,
    pub get_recommendations: Option<DisplayVec<String>>,
    pub delete_sbom_pool: Option<Vec<String>>,
    pub download_advisory: Option<String>,
    pub get_advisory: Option<String>,
    pub put_advisory_lables: Option<Vec<String>>,
    pub patch_advisory_lables: Option<Vec<String>>,
}

/// Reads scenario parameters out of the target's database.
pub struct Loader {
    pub db: String,
}

impl Loader {
    pub fn new(db: String) -> (r: Loader)
        ensures
            r.db == db,
    {
        Loader { db }
    }
}

/// Each identifier with the URN prefix the API expects.
pub open spec fn urns_of(ids: Seq<Seq<char>>) -> Seq<Seq<char>> {
    ids.map_values(|s: Seq<char>| "urn:uuid:"@ + s)
}

/// URN-prefix every identifier in the list.
pub fn urn_uuid_all(ids: &Vec<String>) -> (r: Vec<String>)
    ensures
        r.deep_view() == urns_of(ids.deep_view()),
{
    let mut out: Vec<String> = Vec::new();
    let mut i: usize = 0;
    while i < ids.len()
        invariant
            i <= ids@.len(),
            out.deep_view() =~= urns_of(ids.deep_view().take(i as int)),
        decreases ids@.len() - i,
    {
        let u = utils::urn_uuid(ids[i].as_str());
        let ghost prev = out@;
        let ghost prev_dv = out.deep_view();
        out.push(u);
        proof {
            let dv = ids.deep_view();
            assert(dv.len() == ids@.len());
            assert(prev_dv.len() == prev.len());
            assert(prev_dv.len() == i);
            assert(out@.len() == i + 1);
            assert forall|j: int| 0 <= j < out@.len() implies out.deep_view()[j] == urns_of(
                dv.take(i + 1),
            )[j] by {
                assert(out.deep_view()[j] == out@[j]@);
                assert(urns_of(dv.take(i + 1))[j] == "urn:uuid:"@ + dv.take(i + 1)[j]);
                if j < i {
                    assert(out@[j] == prev[j]);
                    assert(prev_dv[j] == prev[j]@);
                    assert(prev_dv[j] == urns_of(dv.take(i as int))[j]);
                    assert(urns_of(dv.take(i as int))[j] == "urn:uuid:"@ + dv.take(i as int)[j]);
                } else {
                    assert(out@[j] == u);
                    assert(dv[i as int] == ids@[i as int]@);
                }
            }
            assert(out.deep_view() =~= urns_of(dv.take(i + 1)));
        }
        i += 1;
    }
    proof {
        assert(ids.deep_view().take(ids@.len() as int) =~= ids.deep_view());
    }
    out
}

impl Scenario {
    /// Wire the values read from the database into a scenario: the largest
    /// SBOM's digest drives the SBOM reads and its identifier the related
    /// lookups and the license listing; deletion pools and label targets
    /// are URN-prefixed identifier lists.
    pub fn assemble(
        large_sbom_id: String,
        large_sbom_digest: String,
        max_vuln: String,
        sbom_purl: String,
        analyze_purl: String,
        purl_details: String,
        recommendations: DisplayVec<String>,
        deletable_sboms: &Vec<String>,
        download_advisory: String,
        get_advisory: String,
        put_advisory_ids: &Vec<String>,
        patch_advisory_ids: &Vec<String>,
    ) -> (s: Scenario)
        ensures
            s.get_sbom == Some(large_sbom_digest),
            s.get_sbom_advisories == Some(large_sbom_digest),
            s.get_sbom_packages == Some(large_sbom_id),
            s.get_sbom_related == Some(large_sbom_id),
            s.get_vulnerability == Some(max_vuln),
            s.sbom_by_package == Some(sbom_purl),
            (s.sbom_license_ids matches Some(u) && u@ == "urn:uuid:"@ + large_sbom_id@),
            s.analyze_purl == Some(analyze_purl),
            s.get_purl_details == Some(purl_details),
            s.get_recommendations == Some(recommendations),
            (s.delete_sbom_pool matches Some(v) && v.deep_view() == urns_of(
                deletable_sboms.deep_view(),
            )),
            s.download_advisory == Some(download_advisory),
            s.get_advisory == Some(get_advisory),
            (s.put_advisory_lables matches Some(v) && v.deep_view() == urns_of(
                put_advisory_ids.deep_view(),
            )),
            (s.patch_advisory_lables matches Some(v) && v.deep_view() == urns_of(
                patch_advisory_ids.deep_view(),
            )),
    {
        let sbom_license_ids = utils::urn_uuid(large_sbom_id.as_str());
        Scenario {
            get_sbom: Some(large_sbom_digest.clone()),
            get_sbom_advisories: Some(large_sbom_digest),
            get_sbom_packages: Some(large_sbom_id.clone()),
            get_sbom_related: Some(large_sbom_id),
            get_vulnerability: Some(max_vuln),
            sbom_by_package: Some(sbom_purl),
            sbom_license_ids: Some(sbom_license_ids),
            analyze_purl: Some(analyze_purl),
            get_purl_details: Some(purl_details),
            get_recommendations: Some(recommendations),
            delete_sbom_pool: Some(urn_uuid_all(deletable_sboms)),
            download_advisory: Some(download_advisory),
            get_advisory: Some(get_advisory),
            put_advisory_lables: Some(urn_uuid_all(put_advisory_ids)),
            patch_advisory_lables: Some(urn_uuid_all(patch_advisory_ids)),
        }
    }
}

} // verus!
