//! The client: the fixed configuration of every request.

use vstd::prelude::*;
use crate::error::{Error, ErrorView};
use crate::http::{
    header_value_accepted, is_header_value, is_visible_ascii, lemma_visible_ascii_is_header_value,
    Method, Request, RequestView,
};
use crate::text::join;

verus! {

/// The root of the service's addresses, used where none is given.
pub const BASE_API: &'static str = "https://api.notion.com/v1";

/// The protocol version, used where none is given.
pub const VERSION: &'static str = "2021-08-16";

/// The name of the header that carries the credential.
pub const AUTHORIZATION: &'static str = "Authorization";

/// The name of the header that carries the protocol version.
pub const NOTION_VERSION: &'static str = "Notion-Version";

/// The name of the environment variable that holds the credential for
/// [`Client::setup`].
pub const TOKEN_VARIABLE: &'static str = "NOTION_TOKEN";

/// The scheme that the credential is presented under.
pub const BEARER: &'static str = "Bearer ";

/// The configuration shared by all requests: where the service is, which
/// protocol version is spoken, and the credential. It never changes after
/// construction, so one client serves any number of calls.
#[derive(Debug)]
pub struct Client {
    base_api: String,
    token: String,
    version: String,
}

/// The mathematical content of a [`Client`].
pub struct ClientView {
    pub base_api: Seq<char>,
    pub token: Seq<char>,
    pub version: Seq<char>,
}

impl ClientView {
    /// The value of the credential header.
    pub open spec fn authorization(self) -> Seq<char> {
        BEARER@ + self.token
    }

    /// The two headers that every request of the client carries, in order.
    pub open spec fn fixed_headers(self) -> Seq<(Seq<char>, Seq<char>)> {
        seq![(AUTHORIZATION@, self.authorization()), (NOTION_VERSION@, self.version)]
    }

    /// Whether the configuration is usable: the credential is not empty and
    /// both fixed header values may stand in a header.
    pub open spec fn wf(self) -> bool {
        &&& self.token.len() > 0
        &&& is_header_value(self.authorization())
        &&& is_header_value(self.version)
    }

    /// Whether a request carries the two fixed headers of the client, first
    /// among its headers and in order.
    pub open spec fn signs(self, request: RequestView) -> bool {
        self.fixed_headers().is_prefix_of(request.headers)
    }

    /// The request that the client builds for a verb and a path: the path
    /// follows the root, the fixed headers are in place, and neither query
    /// parameters nor a body are set.
    pub open spec fn request(self, method: Method, path: Seq<char>) -> RequestView {
        RequestView {
            method,
            url: self.base_api + path,
            headers: self.fixed_headers(),
            query: Seq::empty(),
            body: None,
        }
    }
}

/// The configuration that results from a credential and the two optional
/// overrides.
pub open spec fn configuration(
    token: Seq<char>,
    base_api: Option<Seq<char>>,
    version: Option<Seq<char>>,
) -> ClientView {
    ClientView {
        base_api: match base_api {
            Some(root) => root,
            None => BASE_API@,
        },
        token,
        version: match version {
            Some(v) => v,
            None => VERSION@,
        },
    }
}

/// The outcome of construction: an empty credential is refused as invalid,
/// a fixed header value that no header may carry as a failure to
/// configure the transport, and every other input gives its configuration.
pub open spec fn construction(
    token: Seq<char>,
    base_api: Option<Seq<char>>,
    version: Option<Seq<char>>,
) -> Result<ClientView, ErrorView> {
    if token.len() == 0 {
        Err(ErrorView::InvalidCredential)
    } else if !configuration(token, base_api, version).wf() {
        Err(ErrorView::TransportInit)
    } else {
        Ok(configuration(token, base_api, version))
    }
}

/// The outcome of construction from a credential that was looked up: a
/// credential that was not found is reported as missing, and one that was
/// found is used with the default root and protocol version.
pub open spec fn setup_outcome(found: Option<Seq<char>>) -> Result<ClientView, ErrorView> {
    match found {
        None => Err(ErrorView::MissingCredential),
        Some(token) => construction(token, None, None),
    }
}

impl View for Client {
    type V = ClientView;

    closed spec fn view(&self) -> ClientView {
        ClientView { base_api: self.base_api@, token: self.token@, version: self.version@ }
    }
}

impl Clone for Client {
    /// A client of the same configuration.
    fn clone(&self) -> (r: Client)
        ensures
            r@ == self@,
    {
        proof {
            use_type_invariant(self);
        }
        Client {
            base_api: self.base_api.clone(),
            token: self.token.clone(),
            version: self.version.clone(),
        }
    }
}

impl Client {
    /// Every client holds a usable configuration.
    #[verifier::type_invariant]
    spec fn usable(self) -> bool {
        self@.wf()
    }

    /// Builds a client from a credential, with an optional root in place of
    /// [`BASE_API`] and an optional protocol version in place of
    /// [`VERSION`]. Nothing is sent.
    pub fn new(
        token: &str,
        base_api: Option<String>,
        version: Option<String>,
    ) -> (r: Result<Client, Error>)
        ensures
            match r {
                Ok(client) => construction(token@, base_api.deep_view(), version.deep_view())
                    == Ok::<ClientView, ErrorView>(client@),
                Err(e) => construction(token@, base_api.deep_view(), version.deep_view())
                    == Err::<ClientView, ErrorView>(e@),
            },
    {
        if token.is_empty() {
            return Err(Error::InvalidCredential);
        }
        let base_api: String = match base_api {
            Some(root) => root,
            None => BASE_API.to_owned(),
        };
        let version: String = match version {
            Some(v) => v,
            None => VERSION.to_owned(),
        };
        let authorization: String = join(BEARER, token);
        if !header_value_accepted(authorization.as_str()) {
            return Err(Error::TransportInit);
        }
        if !header_value_accepted(version.as_str()) {
            return Err(Error::TransportInit);
        }
        Ok(Client { base_api, token: token.to_owned(), version })
    }

    /// Builds a client from the credential that the caller looked up under
    /// [`TOKEN_VARIABLE`], with the default root and protocol version. A
    /// credential that was not found fails here, at construction.
    pub fn setup(found: Option<String>) -> (r: Result<Client, Error>)
        ensures
            match r {
                Ok(client) => setup_outcome(found.deep_view()) == Ok::<ClientView, ErrorView>(
                    client@,
                ),
                Err(e) => setup_outcome(found.deep_view()) == Err::<ClientView, ErrorView>(e@),
            },
    {
        match found {
            Some(token) => Client::new(token.as_str(), None, None),
            None => Err(Error::MissingCredential),
        }
    }

    /// The root that paths are appended to.
    pub fn base_api(&self) -> (root: &str)
        ensures
            root@ == self@.base_api,
    {
        self.base_api.as_str()
    }

    /// The protocol version that every request announces.
    pub fn version(&self) -> (version: &str)
        ensures
            version@ == self@.version,
    {
        self.version.as_str()
    }

    /// Starts a request for a verb and a path. The path begins with a
    /// separator and holds identifiers that are already escaped; it is
    /// appended to the root as it is.
    pub fn build_request(&self, method: Method, path: &str) -> (r: Request)
        ensures
            r@ == self@.request(method, path@),
            self@.signs(r@),
            self@.wf(),
    {
        proof {
            use_type_invariant(self);
        }
        let mut headers: Vec<(String, String)> = Vec::new();
        headers.push((AUTHORIZATION.to_owned(), join(BEARER, self.token.as_str())));
        headers.push((NOTION_VERSION.to_owned(), self.version.clone()));
        assert(headers.deep_view() =~= self@.fixed_headers());
        let query: Vec<(String, String)> = Vec::new();
        assert(query.deep_view() =~= Seq::<(Seq<char>, Seq<char>)>::empty());
        Request {
            method,
            url: join(self.base_api.as_str(), path),
            headers,
            query,
            body: None,
        }
    }
}

/// Construction succeeds on every credential that is not empty and whose
/// fixed header values may stand in a header, and gives the configuration
/// of its inputs.
pub proof fn lemma_valid_credential_constructs(
    token: Seq<char>,
    base_api: Option<Seq<char>>,
    version: Option<Seq<char>>,
)
    requires
        token.len() > 0,
        is_header_value(BEARER@ + token),
        is_header_value(configuration(token, base_api, version).version),
    ensures
        construction(token, base_api, version) == Ok::<ClientView, ErrorView>(
            configuration(token, base_api, version),
        ),
{
}

/// Construction succeeds on every credential that is not empty and made
/// of visible ASCII characters, where the protocol version is left to its
/// default.
pub proof fn lemma_visible_ascii_credential_constructs(
    token: Seq<char>,
    base_api: Option<Seq<char>>,
)
    requires
        token.len() > 0,
        is_visible_ascii(token),
    ensures
        construction(token, base_api, None) == Ok::<ClientView, ErrorView>(
            configuration(token, base_api, None),
        ),
{
    reveal_strlit("Bearer ");
    reveal_strlit("2021-08-16");
    assert(is_visible_ascii(BEARER@ + token)) by {
        assert forall|i: int| 0 <= i < (BEARER@ + token).len() implies ' ' <= #[trigger] (BEARER@
            + token)[i] <= '~' by {
            if i >= BEARER@.len() {
                assert((BEARER@ + token)[i] == token[i - BEARER@.len()]);
            }
        }
    }
    assert(is_visible_ascii(VERSION@));
    lemma_visible_ascii_is_header_value(BEARER@ + token);
    lemma_visible_ascii_is_header_value(VERSION@);
}

/// Construction refuses the empty credential as invalid, whatever the
/// overrides.
pub proof fn lemma_empty_credential_is_refused(
    base_api: Option<Seq<char>>,
    version: Option<Seq<char>>,
)
    ensures
        construction(Seq::empty(), base_api, version) == Err::<ClientView, ErrorView>(
            ErrorView::InvalidCredential,
        ),
{
}

/// A request that carries the fixed headers of a client first holds the
/// credential header and the protocol version header with the values of
/// that client.
pub proof fn lemma_signed_request_has_fixed_headers(client: ClientView, request: RequestView)
    requires
        client.signs(request),
    ensures
        request.has_header(AUTHORIZATION@, BEARER@ + client.token),
        request.has_header(NOTION_VERSION@, client.version),
{
    let fixed = client.fixed_headers();
    assert(fixed.len() == 2);
    assert(request.headers[0] == fixed[0]);
    assert(request.headers[1] == fixed[1]);
}

/// Adding a query parameter or a JSON body to a request that carries the
/// fixed headers of a client first leaves them there.
pub proof fn lemma_additions_keep_fixed_headers(
    client: ClientView,
    request: RequestView,
    name: Seq<char>,
    value: Seq<char>,
    json: crate::json::JsonView,
)
    requires
        client.signs(request),
    ensures
        client.signs(request.with_query(name, value)),
        client.signs(request.with_json(json)),
{
}

/// The request that a client builds is a function of its configuration
/// and of the verb and path alone: two clients that agree in root,
/// credential and protocol version build the same request, which carries
/// the fixed headers.
pub proof fn lemma_request_is_determined(
    a: ClientView,
    b: ClientView,
    method: Method,
    path: Seq<char>,
)
    requires
        a.base_api == b.base_api,
        a.token == b.token,
        a.version == b.version,
    ensures
        a.request(method, path) == b.request(method, path),
        a.signs(a.request(method, path)),
{
}

} // verus!
