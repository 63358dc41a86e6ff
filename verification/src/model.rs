//! Data model: the upstream catalog snapshot, the derived feed items, and the
//! error taxonomy shared by every component.

use vstd::prelude::*;

verus! {

/// One catalog row: a known-exploited vulnerability as published upstream.
/// `cve_id` is absent for entries that predate a CVE assignment; no reference
/// link can be synthesized for those.
#[derive(Debug, Clone, PartialEq)]
pub struct Vulnerability {
    pub cve_id: Option<String>,
    pub vendor_project: String,
    pub product: String,
    pub vulnerability_name: String,
    pub date_added: String,
    pub short_description: String,
    pub required_action: String,
    pub due_date: String,
    pub notes: String,
}

/// One upstream catalog snapshot. `count` is upstream-trusted and is not
/// checked against the length of `vulnerabilities`.
#[derive(Debug, Clone, PartialEq)]
pub struct CatalogResponse {
    pub catalog_version: String,
    pub date_released: String,
    pub count: u16,
    pub vulnerabilities: Vec<Vulnerability>,
}

/// One feed entry derived from a catalog row; transient, built per response.
#[derive(Debug, Clone, PartialEq)]
pub struct FeedItem {
    pub title: String,
    pub description: String,
    pub pub_date: String,
    pub link: Option<String>,
}

/// The channel metadata together with the ordered feed items.
#[derive(Debug, Clone, PartialEq)]
pub struct FeedDocument {
    pub title: String,
    pub link: String,
    pub description: String,
    pub pub_date: String,
    pub last_build_date: String,
    pub items: Vec<FeedItem>,
}

/// Everything that can go wrong between the upstream source and the caller.
/// Transport and decode failures propagate; a cache read failure is treated
/// as a miss, a cache write failure is swallowed by the driver; an assembly
/// failure is fatal to the response.
#[derive(Debug, Clone, PartialEq)]
pub enum FeedError {
    Transport(String),
    Decode(String),
    Cache(String),
    Build(String),
}

pub ghost struct VulnerabilityView {
    pub cve_id: Option<Seq<char>>,
    pub vendor_project: Seq<char>,
    pub product: Seq<char>,
    pub vulnerability_name: Seq<char>,
    pub date_added: Seq<char>,
    pub short_description: Seq<char>,
    pub required_action: Seq<char>,
    pub due_date: Seq<char>,
    pub notes: Seq<char>,
}

impl View for Vulnerability {
    type V = VulnerabilityView;

    open spec fn view(&self) -> VulnerabilityView {
        VulnerabilityView {
            cve_id: match self.cve_id {
                Some(c) => Some(c@),
                None => None,
            },
            vendor_project: self.vendor_project@,
            product: self.product@,
            vulnerability_name: self.vulnerability_name@,
            date_added: self.date_added@,
            short_description: self.short_description@,
            required_action: self.required_action@,
            due_date: self.due_date@,
            notes: self.notes@,
        }
    }
}

pub ghost struct CatalogResponseView {
    pub catalog_version: Seq<char>,
    pub date_released: Seq<char>,
    pub count: u16,
    pub vulnerabilities: Seq<VulnerabilityView>,
}

impl View for CatalogResponse {
    type V = CatalogResponseView;

    open spec fn view(&self) -> CatalogResponseView {
        CatalogResponseView {
            catalog_version: self.catalog_version@,
            date_released: self.date_released@,
            count: self.count,
            vulnerabilities: self.vulnerabilities@.map_values(|v: Vulnerability| v@),
        }
    }
}

pub ghost struct FeedItemView {
    pub title: Seq<char>,
    pub description: Seq<char>,
    pub pub_date: Seq<char>,
    pub link: Option<Seq<char>>,
}

impl View for FeedItem {
    type V = FeedItemView;

    open spec fn view(&self) -> FeedItemView {
        FeedItemView {
            title: self.title@,
            description: self.description@,
            pub_date: self.pub_date@,
            link: match self.link {
                Some(l) => Some(l@),
                None => None,
            },
        }
    }
}

pub ghost struct FeedDocumentView {
    pub title: Seq<char>,
    pub link: Seq<char>,
    pub description: Seq<char>,
    pub pub_date: Seq<char>,
    pub last_build_date: Seq<char>,
    pub items: Seq<FeedItemView>,
}

impl View for FeedDocument {
    type V = FeedDocumentView;

    open spec fn view(&self) -> FeedDocumentView {
        FeedDocumentView {
            title: self.title@,
            link: self.link@,
            description: self.description@,
            pub_date: self.pub_date@,
            last_build_date: self.last_build_date@,
            items: self.items@.map_values(|it: FeedItem| it@),
        }
    }
}

/// The reference link synthesized for a CVE identifier.
pub open spec fn cve_link_of(c: Seq<char>) -> Seq<char> {
    "https://nvd.nist.gov/vuln/detail/"@ + c
}

/// How one catalog row maps to one feed entry: title, description and
/// publication date are carried over verbatim; the link exists exactly when
/// the row has a CVE identifier.
pub open spec fn item_view_of(v: VulnerabilityView) -> FeedItemView {
    FeedItemView {
        title: v.vulnerability_name,
        description: v.short_description,
        pub_date: v.date_added,
        link: match v.cve_id {
            Some(c) => Some(cve_link_of(c)),
            None => None,
        },
    }
}

/// The HTTP status reported to a caller for an unrecoverable failure.
/// Every error that propagates this far is a server-side failure — the
/// response carries no partial feed, whichever component failed.
pub fn response_status(e: &FeedError) -> (s: u16)
    ensures
        s == 500u16,
{
    match e {
        FeedError::Transport(_) => 500,
        FeedError::Decode(_) => 500,
        FeedError::Cache(_) => 500,
        FeedError::Build(_) => 500,
    }
}

/// The fixed channel title.
pub open spec fn channel_title() -> Seq<char> {
    "CISA Exploited Vulnerabilities"@
}

/// The fixed channel link.
pub open spec fn channel_link() -> Seq<char> {
    "https://www.cisa.gov/known-exploited-vulnerabilities-catalog"@
}

/// The fixed channel description.
pub open spec fn channel_description() -> Seq<char> {
    "RSS feed of the CISA exploited vulnerabilities list"@
}

} // verus!
