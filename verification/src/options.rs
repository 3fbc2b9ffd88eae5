//! Request types and option building.
//!
//! A request arrives as loosely typed data decoded from the caller's JSON
//! body; the builders here turn it into the strongly typed option bundle
//! the scraping client takes, applying the documented defaulting and
//! filtering rules. The caller's extraction schema is an arbitrary JSON
//! value: this layer never looks inside it, it only carries it through.

use vstd::prelude::*;
use crate::formats::CrawlFormat;
use crate::formats::ScrapeFormat;
use crate::formats::normalize_crawl_formats;
use crate::formats::normalize_crawl_formats_spec;
use crate::formats::normalize_formats;
use crate::formats::normalize_formats_spec;

verus! {

/// The JSON value type of the `serde_json` crate, declared so that a schema
/// can be held and moved; nothing inside it is read here.
#[verifier::external_type_specification]
#[verifier::external_body]
pub struct ExValue(serde_json::Value);

/// A scrape request, as decoded from the caller's JSON body: the target
/// URL (opaque here — the remote service judges it), the requested output
/// formats, and an optional structured-extraction schema.
pub struct ScrapeRequest {
    pub url: String,
    pub formats: Option<Vec<String>>,
    pub schema: Option<serde_json::Value>,
}

/// A crawl request, as decoded from the caller's JSON body.
pub struct CrawlRequest {
    pub url: String,
    pub limit: Option<i32>,
    pub formats: Option<Vec<String>>,
}

/// A structured-extraction directive: the caller's schema, with every other
/// extraction setting left at the client's defaults.
pub struct ExtractDirective {
    pub schema: serde_json::Value,
}

/// The option bundle handed to the scraping client for one scrape call.
pub struct ScrapeOptions {
    pub formats: Vec<ScrapeFormat>,
    pub extract: Option<ExtractDirective>,
}

/// The option bundle handed to the scraping client for one crawl call.
pub struct CrawlOptions {
    pub formats: Vec<CrawlFormat>,
    pub limit: u32,
}

/// The format sequence a scrape call requests: the normalized tokens, with
/// the structured-extraction format appended when a schema is supplied.
pub open spec fn scrape_options_formats(
    req_formats: Option<Seq<Seq<char>>>,
    has_schema: bool,
) -> Seq<ScrapeFormat> {
    if has_schema {
        normalize_formats_spec(req_formats).push(ScrapeFormat::Extract)
    } else {
        normalize_formats_spec(req_formats)
    }
}

/// Builds the options for one scrape call: normalize the requested formats,
/// and when a schema is supplied, request the structured-extraction format
/// as well — whether or not the caller listed it — and attach the schema,
/// leaving every other extraction setting at its default.
pub fn build_scrape_options(req: ScrapeRequest) -> (r: ScrapeOptions)
    ensures
        r.formats@ == scrape_options_formats(req.formats.deep_view(), req.schema is Some),
        r.formats@.len() > 0,
        req.schema matches Some(s) ==> r.extract matches Some(d) && d.schema == s,
        req.schema is Some ==> r.formats@.last() == ScrapeFormat::Extract && r.formats@.contains(
            ScrapeFormat::Extract,
        ),
        req.schema is None ==> r.extract is None,
{
    let mut formats = normalize_formats(&req.formats);
    let extract = match req.schema {
        Some(schema) => {
            formats.push(ScrapeFormat::Extract);
            Some(ExtractDirective { schema })
        },
        None => None,
    };
    ScrapeOptions { formats, extract }
}

/// The two's-complement reading of a possibly negative count as the
/// unsigned page limit the client takes.
pub open spec fn limit_as_u32(l: i32) -> u32 {
    if l >= 0 {
        l as u32
    } else {
        (l + 0x1_0000_0000) as u32
    }
}

/// The resolved page limit of a crawl call: the caller's value when one is
/// given, 100 otherwise.
pub open spec fn crawl_limit_spec(limit: Option<i32>) -> u32 {
    match limit {
        Some(l) => limit_as_u32(l),
        None => 100,
    }
}

/// Builds the options for one crawl call: normalize the requested formats
/// against the crawl vocabulary and resolve the page limit — the caller's
/// value when present, 100 when absent. A negative limit is forwarded under
/// its two's-complement reading, exactly as the unsigned cast sends it; this
/// layer does not judge its range.
pub fn build_crawl_options(req: CrawlRequest) -> (r: CrawlOptions)
    ensures
        r.formats@ == normalize_crawl_formats_spec(req.formats.deep_view()),
        r.formats@.len() > 0,
        r.limit == crawl_limit_spec(req.limit),
        req.limit is None ==> r.limit == 100,
{
    let formats = normalize_crawl_formats(&req.formats);
    let limit: u32 = match req.limit {
        Some(l) => {
            if l >= 0 {
                l as u32
            } else {
                ((l as i64) + 0x1_0000_0000) as u32
            }
        },
        None => 100,
    };
    CrawlOptions { formats, limit }
}

} // verus!
