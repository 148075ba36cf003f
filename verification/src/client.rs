use vstd::prelude::*;
use vstd::string::*;

verus! {

/// Holds information about which collection to select.
#[derive(Clone, Debug)]
pub struct Collection {
    /// Atlas data source.
    pub data_source: String,
    /// Database name.
    pub database: String,
    /// Collection name.
    pub collection: String,
}

/// Mathematical view of a [`Collection`]: the three name strings.
pub struct CollectionView {
    pub data_source: Seq<char>,
    pub database: Seq<char>,
    pub collection: Seq<char>,
}

impl View for Collection {
    type V = CollectionView;

    open spec fn view(&self) -> CollectionView {
        CollectionView {
            data_source: self.data_source@,
            database: self.database@,
            collection: self.collection@,
        }
    }
}

/// The version of the remote API named in the endpoint URL.
#[allow(non_camel_case_types)]
#[derive(Clone, Debug)]
pub enum ApiVersion {
    v1,
}

/// The path segment that names an API version in the endpoint URL.
pub open spec fn version_str(v: ApiVersion) -> Seq<char> {
    match v {
        ApiVersion::v1 => "v1"@,
    }
}

/// Implements all the API calls, but doesn't hold information about the
/// selected collection or database.
#[derive(Clone, Debug)]
pub struct Client {
    /// The application id, which is inserted into the query URL.
    pub application_id: String,
    /// Authentication using the `apiKey` header.
    pub api_token: String,
    /// The remote API version addressed by every call.
    pub api_version: ApiVersion,
    /// Should be none if deployed globally, or `<Region>.<Cloud>`.
    pub deployment_region: Option<String>,
}

/// Mathematical view of a [`Client`]: its configuration fields.
pub struct ClientView {
    pub application_id: Seq<char>,
    pub api_token: Seq<char>,
    pub api_version: ApiVersion,
    pub deployment_region: Option<Seq<char>>,
}

impl View for Client {
    type V = ClientView;

    open spec fn view(&self) -> ClientView {
        ClientView {
            application_id: self.application_id@,
            api_token: self.api_token@,
            api_version: self.api_version,
            deployment_region: match self.deployment_region {
                Some(ref r) => Some(r@),
                None => None,
            },
        }
    }
}

/// The host-name prefix contributed by the deployment region: the region
/// followed by a dot when one is configured, nothing otherwise.
pub open spec fn region_prefix(region: Option<Seq<char>>) -> Seq<char> {
    match region {
        Some(r) => r + seq!['.'],
        None => Seq::<char>::empty(),
    }
}

/// The base URL every action URL starts from:
/// `https://{region.}data.mongodb-api.com/app/{application_id}/endpoint/data/{version}`.
pub open spec fn base_url(c: ClientView) -> Seq<char> {
    "https://"@ + region_prefix(c.deployment_region) + "data.mongodb-api.com/app/"@
        + c.application_id + "/endpoint/data/"@ + version_str(c.api_version)
}

/// The URL one named action is posted to: the base URL plus `/action/`
/// and the action name.
pub open spec fn action_url_spec(c: ClientView, action: Seq<char>) -> Seq<char> {
    base_url(c) + "/action/"@ + action
}

/// Whether `c` may appear in an HTTP header value: printable ASCII.
pub open spec fn valid_header_char(c: char) -> bool {
    0x20 <= (c as u32) <= 0x7e
}

/// Whether `s` is acceptable as an HTTP header value. The API token must
/// satisfy this before headers can be assembled.
pub open spec fn valid_header_value(s: Seq<char>) -> bool {
    forall|k: int| 0 <= k < s.len() ==> valid_header_char(s[k])
}

/// Checks at run time whether `s` can be sent as an HTTP header value.
pub fn is_valid_header_value(s: &str) -> (b: bool)
    ensures
        b == valid_header_value(s@),
{
    let n = s.unicode_len();
    let mut i: usize = 0;
    while i < n
        invariant
            i <= n,
            n == s@.len(),
            forall|k: int| 0 <= k < i ==> valid_header_char(s@[k]),
        decreases n - i,
    {
        let c = s.get_char(i);
        let u = c as u32;
        if u < 0x20 || u > 0x7e {
            proof {
                assert(!valid_header_char(s@[i as int]));
            }
            return false;
        }
        i += 1;
    }
    true
}

impl Client {
    /// Builds a client from its configuration fields. No validation happens
    /// here; a malformed application id or token only surfaces later.
    pub fn new(
        application_id: String,
        api_token: String,
        api_version: ApiVersion,
        deployment_region: Option<String>,
    ) -> (r: Client)
        ensures
            r.application_id == application_id,
            r.api_token == api_token,
            r.api_version == api_version,
            r.deployment_region == deployment_region,
    {
        Client { application_id, api_token, api_version, deployment_region }
    }

    /// Gets the base URL
    /// `https://data.mongodb-api.com/app/<App ID>/endpoint/data/<API Version>`,
    /// with the region and a dot before the host name when one is configured.
    pub fn get_url(&self) -> (r: String)
        ensures
            r@ == base_url(self@),
    {
        let mut out = String::new();
        out.append("https://");
        match &self.deployment_region {
            Some(region) => {
                out.append(region.as_str());
                out.append(".");
                proof {
                    reveal_strlit(".");
                    assert("."@ =~= seq!['.']);
                    assert(out@ =~= "https://"@ + region_prefix(self@.deployment_region));
                }
            },
            None => {
                proof {
                    assert(out@ =~= "https://"@ + region_prefix(self@.deployment_region));
                }
            },
        }
        out.append("data.mongodb-api.com/app/");
        out.append(self.application_id.as_str());
        out.append("/endpoint/data/");
        match &self.api_version {
            ApiVersion::v1 => {
                out.append("v1");
                proof {
                    assert(out@ =~= base_url(self@));
                }
            },
        }
        out
    }

    /// Gets the base headers: the raw token under `apikey`, and
    /// `application/json` as both content type and accepted type.
    ///
    /// The token must be a valid header value; the underlying HTTP machinery
    /// cannot represent any other string as a header.
    pub fn get_auth_headers(&self) -> (r: Vec<(String, String)>)
        requires
            valid_header_value(self.api_token@),
        ensures
            r@.len() == 3,
            r@[0].0@ == "apikey"@ && r@[0].1@ == self.api_token@,
            r@[1].0@ == "content-type"@ && r@[1].1@ == "application/json"@,
            r@[2].0@ == "accept"@ && r@[2].1@ == "application/json"@,
    {
        let mut v: Vec<(String, String)> = Vec::new();
        v.push((String::from_str("apikey"), self.api_token.clone()));
        v.push((String::from_str("content-type"), String::from_str("application/json")));
        v.push((String::from_str("accept"), String::from_str("application/json")));
        v
    }
}

/// With no region configured, the derived base URL carries no region
/// segment: it is exactly the scheme followed by the bare host name and the
/// application path. With a region configured, the URL begins with the
/// scheme, then the region, then a dot.
pub proof fn lemma_base_url_region(c: ClientView)
    ensures
        c.deployment_region is None ==> base_url(c) == "https://"@
            + "data.mongodb-api.com/app/"@ + c.application_id + "/endpoint/data/"@
            + version_str(c.api_version),
        c.deployment_region matches Some(r) ==> base_url(c).subrange(
            0,
            "https://"@.len() + r.len() + 1 as int,
        ) == "https://"@ + r + seq!['.'],
{
    if c.deployment_region is None {
        assert(base_url(c) =~= "https://"@ + "data.mongodb-api.com/app/"@
            + c.application_id + "/endpoint/data/"@ + version_str(c.api_version));
    }
    match c.deployment_region {
        Some(r) => {
            assert(base_url(c).subrange(0, "https://"@.len() + r.len() + 1 as int) =~= "https://"@ + r
                + seq!['.']);
        },
        None => {},
    }
}

} // verus!
