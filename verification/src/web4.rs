//! The request handler: the two-phase preload protocol.
//!
//! A request that carries no preload payloads is answered with the two
//! upstream resource URLs to fetch (phase A); a request that carries them
//! is answered with the rendered dashboard (phase B). A missing payload, a
//! payload that does not decode, or a quote whose feed decimal count is
//! below the display's aborts the whole request with a named error: no
//! partial page is ever produced. A request for the well-known robots path
//! short-circuits both phases.

use vstd::prelude::*;
use vstd::string::StringSliceAdditionalSpecFns;
use vstd::string::StringExecFns;

use crate::aggregate::{aggregate_validators, spec_aggregate};
use crate::bytes::push_str_bytes;
use crate::parse::{parse_assets, parse_price_data, spec_parse_assets, spec_parse_price_data};
use crate::registry::{Contract, TokenConfigV};
use crate::render::{
    price_table, render_page, spec_price_table, spec_render_page, spec_validator_rows,
    validator_table,
};

verus! {

/// Why a request was aborted.
#[derive(Clone, Copy, PartialEq, Eq, Structural, Debug)]
pub enum Web4Error {
    /// A declared preload URL's entry, or its body, is absent.
    MissingPreload,
    /// Attached bytes do not parse into the expected feed shape.
    DecodeFailure,
    /// A feed quote reports fewer decimals than the registry displays.
    NormalizationFault,
}

/// A response handed back to the serving environment.
#[derive(Debug)]
pub struct Web4Response {
    pub content_type: Option<String>,
    pub status: Option<u32>,
    pub body: Option<Vec<u8>>,
    pub body_url: Option<String>,
    pub preload_urls: Option<Vec<String>>,
}

/// Abstract value of a `Web4Response`.
pub struct Web4ResponseV {
    pub content_type: Option<Seq<char>>,
    pub status: Option<u32>,
    pub body: Option<Seq<u8>>,
    pub body_url: Option<Seq<char>>,
    pub preload_urls: Option<Seq<Seq<char>>>,
}

/// View of a URL list.
pub open spec fn urls_view(urls: Seq<String>) -> Seq<Seq<char>> {
    urls.map_values(|s: String| s@)
}

impl View for Web4Response {
    type V = Web4ResponseV;

    open spec fn view(&self) -> Web4ResponseV {
        Web4ResponseV {
            content_type: match self.content_type {
                Some(s) => Some(s@),
                None => None,
            },
            status: self.status,
            body: match self.body {
                Some(b) => Some(b@),
                None => None,
            },
            body_url: match self.body_url {
                Some(s) => Some(s@),
                None => None,
            },
            preload_urls: match self.preload_urls {
                Some(u) => Some(urls_view(u@)),
                None => None,
            },
        }
    }
}

/// A request from the serving environment.
pub struct Web4Request {
    pub account_id: Option<String>,
    pub path: String,
    pub params: Option<Vec<(String, String)>>,
    pub query: Option<Vec<(String, Vec<String>)>>,
    pub preloads: Option<Vec<(String, Web4Response)>>,
}

/// Abstract value of a `Web4Request`.
pub struct Web4RequestV {
    pub account_id: Option<Seq<char>>,
    pub path: Seq<char>,
    pub preloads: Option<Seq<(Seq<char>, Web4ResponseV)>>,
}

/// View of an attached preload list.
pub open spec fn preloads_view(pl: Seq<(String, Web4Response)>) -> Seq<(Seq<char>, Web4ResponseV)> {
    pl.map_values(|e: (String, Web4Response)| (e.0@, e.1@))
}

impl View for Web4Request {
    type V = Web4RequestV;

    open spec fn view(&self) -> Web4RequestV {
        Web4RequestV {
            account_id: match self.account_id {
                Some(s) => Some(s@),
                None => None,
            },
            path: self.path@,
            preloads: match self.preloads {
                Some(pl) => Some(preloads_view(pl@)),
                None => None,
            },
        }
    }
}

/// A response holding an HTML body.
pub open spec fn spec_html_response(body: Seq<u8>) -> Web4ResponseV {
    Web4ResponseV {
        content_type: Some("text/html; charset=UTF-8"@),
        status: None,
        body: Some(body),
        body_url: None,
        preload_urls: None,
    }
}

/// A response holding a plain-text body.
pub open spec fn spec_plain_response(body: Seq<u8>) -> Web4ResponseV {
    Web4ResponseV {
        content_type: Some("text/plain; charset=UTF-8"@),
        status: None,
        body: Some(body),
        body_url: None,
        preload_urls: None,
    }
}

/// A response asking the environment to fetch `urls`; it has no body.
pub open spec fn spec_preload_urls_response(urls: Seq<Seq<char>>) -> Web4ResponseV {
    Web4ResponseV {
        content_type: None,
        status: None,
        body: None,
        body_url: None,
        preload_urls: Some(urls),
    }
}

/// A response redirecting to `url`.
pub open spec fn spec_body_url_response(url: Seq<char>) -> Web4ResponseV {
    Web4ResponseV {
        content_type: None,
        status: None,
        body: None,
        body_url: Some(url),
        preload_urls: None,
    }
}

/// A response carrying only a status code.
pub open spec fn spec_status_response(status: u32) -> Web4ResponseV {
    Web4ResponseV {
        content_type: None,
        status: Some(status),
        body: None,
        body_url: None,
        preload_urls: None,
    }
}

impl Web4Response {
    /// An HTML response with the given body bytes.
    pub fn html_response(text: Vec<u8>) -> (r: Web4Response)
        ensures
            r@ == spec_html_response(text@),
    {
        Web4Response {
            content_type: Some(String::from_str("text/html; charset=UTF-8")),
            status: None,
            body: Some(text),
            body_url: None,
            preload_urls: None,
        }
    }

    /// A plain-text response with the given body bytes.
    pub fn plain_response(text: Vec<u8>) -> (r: Web4Response)
        ensures
            r@ == spec_plain_response(text@),
    {
        Web4Response {
            content_type: Some(String::from_str("text/plain; charset=UTF-8")),
            status: None,
            body: Some(text),
            body_url: None,
            preload_urls: None,
        }
    }

    /// A preload-request response, with no body.
    pub fn preload_urls(urls: Vec<String>) -> (r: Web4Response)
        ensures
            r@ == spec_preload_urls_response(urls_view(urls@)),
    {
        Web4Response {
            content_type: None,
            status: None,
            body: None,
            body_url: None,
            preload_urls: Some(urls),
        }
    }

    /// A redirect response.
    pub fn body_url(url: String) -> (r: Web4Response)
        ensures
            r@ == spec_body_url_response(url@),
    {
        Web4Response {
            content_type: None,
            status: None,
            body: None,
            body_url: Some(url),
            preload_urls: None,
        }
    }

    /// A bare status response.
    pub fn status(status: u32) -> (r: Web4Response)
        ensures
            r@ == spec_status_response(status),
    {
        Web4Response { content_type: None, status: Some(status), body: None, body_url: None, preload_urls: None }
    }
}

/// The upstream URL of the price snapshot feed.
pub open spec fn spec_price_data_url() -> Seq<char> {
    "/web4/contract/priceoracle.near/get_price_data"@
}

/// The upstream URL of the asset report feed.
pub open spec fn spec_assets_url() -> Seq<char> {
    "/web4/contract/priceoracle.near/get_assets"@
}

/// The body served for the robots path.
pub open spec fn spec_robots_body() -> Seq<u8> {
    "User-agent: *\nDisallow:".spec_bytes()
}

/// First preload entry stored under `url`.
pub open spec fn spec_lookup_preload(pl: Seq<(Seq<char>, Web4ResponseV)>, url: Seq<char>) -> Option<
    Web4ResponseV,
>
    decreases pl.len(),
{
    if pl.len() == 0 {
        None
    } else if pl[0].0 == url {
        Some(pl[0].1)
    } else {
        spec_lookup_preload(pl.skip(1), url)
    }
}

fn lookup_preload<'a>(pl: &'a Vec<(String, Web4Response)>, url: &String) -> (r: Option<
    &'a Web4Response,
>)
    ensures
        match r {
            Some(resp) => spec_lookup_preload(preloads_view(pl@), url@) == Some(resp@),
            None => spec_lookup_preload(preloads_view(pl@), url@) is None,
        },
{
    let ghost pv = preloads_view(pl@);
    proof {
        assert(pv.skip(0) =~= pv);
    }
    let n = pl.len();
    let mut i: usize = 0;
    while i < n
        invariant
            n == pl@.len(),
            pv == preloads_view(pl@),
            pv.len() == n,
            i <= n,
            spec_lookup_preload(pv, url@) == spec_lookup_preload(pv.skip(i as int), url@),
        decreases n - i,
    {
        proof {
            assert(pv.skip(i as int)[0] == pv[i as int]);
            assert(pv.skip(i as int).skip(1) =~= pv.skip(i + 1));
        }
        if pl[i].0.eq(url) {
            return Some(&pl[i].1);
        }
        i += 1;
    }
    proof {
        assert(pv.skip(n as int) =~= Seq::<(Seq<char>, Web4ResponseV)>::empty());
    }
    None
}

/// Phase B: decode both preloaded feeds and render the dashboard, or abort
/// with the error named for the first thing that is wrong.
pub open spec fn spec_render_phase(
    cfg: Map<Seq<u8>, TokenConfigV>,
    pl: Seq<(Seq<char>, Web4ResponseV)>,
    now_ns: u64,
) -> Result<Web4ResponseV, Web4Error> {
    match spec_lookup_preload(pl, spec_price_data_url()) {
        None => Err(Web4Error::MissingPreload),
        Some(pd_resp) => match pd_resp.body {
            None => Err(Web4Error::MissingPreload),
            Some(pd_bytes) => match spec_parse_price_data(pd_bytes) {
                None => Err(Web4Error::DecodeFailure),
                Some(pd) => match spec_lookup_preload(pl, spec_assets_url()) {
                    None => Err(Web4Error::MissingPreload),
                    Some(a_resp) => match a_resp.body {
                        None => Err(Web4Error::MissingPreload),
                        Some(a_bytes) => match spec_parse_assets(a_bytes) {
                            None => Err(Web4Error::DecodeFailure),
                            Some(assets) => match spec_price_table(cfg, pd.prices, assets) {
                                None => Err(Web4Error::NormalizationFault),
                                Some(pt) => Ok(
                                    spec_html_response(
                                        spec_render_page(
                                            pt,
                                            spec_validator_rows(
                                                spec_aggregate(assets),
                                                now_ns,
                                                0,
                                            ),
                                        ),
                                    ),
                                ),
                            },
                        },
                    },
                },
            },
        },
    }
}

/// The whole handler: the robots short-circuit, then phase A or phase B.
pub open spec fn spec_web4_get(
    cfg: Map<Seq<u8>, TokenConfigV>,
    req: Web4RequestV,
    now_ns: u64,
) -> Result<Web4ResponseV, Web4Error> {
    if req.path == "/robots.txt"@ {
        Ok(spec_plain_response(spec_robots_body()))
    } else {
        match req.preloads {
            None => Ok(
                spec_preload_urls_response(seq![spec_assets_url(), spec_price_data_url()]),
            ),
            Some(pl) => spec_render_phase(cfg, pl, now_ns),
        }
    }
}

impl Contract {
    /// Serves one request at time `now_ns` (nanoseconds): the robots body
    /// for the robots path; the two upstream URLs to fetch when no preloads
    /// are attached; the rendered dashboard when both are attached; a named
    /// error otherwise.
    pub fn web4_get(&self, request: Web4Request, now_ns: u64) -> (r: Result<
        Web4Response,
        Web4Error,
    >)
        ensures
            match (r, spec_web4_get(self@, request@, now_ns)) {
                (Ok(resp), Ok(v)) => resp@ == v,
                (Err(e), Err(v)) => e == v,
                _ => false,
            },
            request@.path == "/robots.txt"@ ==> spec_web4_get(self@, request@, now_ns)
                == Ok::<Web4ResponseV, Web4Error>(spec_plain_response(spec_robots_body())),
            request@.path != "/robots.txt"@ && request@.preloads is None ==> spec_web4_get(
                self@,
                request@,
                now_ns,
            ) == Ok::<Web4ResponseV, Web4Error>(
                spec_preload_urls_response(seq![spec_assets_url(), spec_price_data_url()]),
            ),
    {
        let robots = String::from_str("/robots.txt");
        if request.path.eq(&robots) {
            let mut body: Vec<u8> = Vec::new();
            push_str_bytes(&mut body, "User-agent: *\nDisallow:");
            proof {
                assert(body@ =~= spec_robots_body());
            }
            return Ok(Web4Response::plain_response(body));
        }
        match request.preloads {
            None => {
                let mut urls: Vec<String> = Vec::new();
                urls.push(String::from_str("/web4/contract/priceoracle.near/get_assets"));
                urls.push(String::from_str("/web4/contract/priceoracle.near/get_price_data"));
                proof {
                    assert(urls_view(urls@) =~= seq![spec_assets_url(), spec_price_data_url()]);
                }
                Ok(Web4Response::preload_urls(urls))
            },
            Some(pl) => {
                let price_url = String::from_str(
                    "/web4/contract/priceoracle.near/get_price_data",
                );
                let pd_resp = match lookup_preload(&pl, &price_url) {
                    Some(x) => x,
                    None => {
                        return Err(Web4Error::MissingPreload);
                    },
                };
                let pd_bytes = match &pd_resp.body {
                    Some(b) => b,
                    None => {
                        return Err(Web4Error::MissingPreload);
                    },
                };
                let pd = match parse_price_data(pd_bytes) {
                    Some(x) => x,
                    None => {
                        return Err(Web4Error::DecodeFailure);
                    },
                };
                let assets_url = String::from_str("/web4/contract/priceoracle.near/get_assets");
                let a_resp = match lookup_preload(&pl, &assets_url) {
                    Some(x) => x,
                    None => {
                        return Err(Web4Error::MissingPreload);
                    },
                };
                let a_bytes = match &a_resp.body {
                    Some(b) => b,
                    None => {
                        return Err(Web4Error::MissingPreload);
                    },
                };
                let assets = match parse_assets(a_bytes) {
                    Some(x) => x,
                    None => {
                        return Err(Web4Error::DecodeFailure);
                    },
                };
                let pt = match price_table(self, &pd.prices, &assets) {
                    Some(x) => x,
                    None => {
                        return Err(Web4Error::NormalizationFault);
                    },
                };
                let vals = aggregate_validators(&assets);
                let vt = validator_table(&vals, now_ns);
                let page = render_page(&pt, &vt);
                Ok(Web4Response::html_response(page))
            },
        }
    }
}

} // verus!
