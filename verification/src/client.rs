use vstd::prelude::*;
use vstd::string::*;
use crate::dispatch::{absolute_url, resolve_url, Method, Request, RequestView};
use crate::ident::{canonical_id, canonical_uri, read_form, Form};
use crate::kind::Type;
use crate::params::{convert_map_to_string, query_of, Entries, Params};
use crate::payload::{empty_object, no_fields, object_fields, JsonView};

verus! {

/// The credentials manager as the client sees it: the bearer token that it
/// supplies at present. Whoever runs the OAuth exchange renews the token
/// before each call.
pub struct SpotifyClientCredentials {
    pub access_token: String,
}

impl SpotifyClientCredentials {
    /// The token to authorise the next call with.
    pub fn get_access_token(&self) -> (token: String)
        ensures
            token@ == self.access_token@,
    {
        self.access_token.clone()
    }
}

/// The client's configuration: where the service lives and how calls are
/// authorised. A statically configured token takes precedence over the
/// credentials manager.
pub struct Spotify {
    pub prefix: String,
    pub access_token: Option<String>,
    pub client_credentials_manager: Option<SpotifyClientCredentials>,
}

/// `url` followed by the query string of `entries`, if there are any.
pub open spec fn with_query(url: Seq<char>, entries: Entries) -> Seq<char> {
    if entries.len() == 0 {
        url
    } else {
        url + seq!['?'] + query_of(entries)
    }
}

impl Spotify {
    /// Whether the client has a source for its token.
    pub open spec fn has_auth(&self) -> bool {
        self.access_token is Some || self.client_credentials_manager is Some
    }

    /// The token that calls are authorised with.
    pub open spec fn token(&self) -> Seq<char> {
        match self.access_token {
            Some(token) => token@,
            None => match self.client_credentials_manager {
                Some(manager) => manager.access_token@,
                None => Seq::<char>::empty(),
            },
        }
    }

    /// The value of the `Authorization` header of every call.
    pub open spec fn authorization(&self) -> Seq<char> {
        "Bearer "@ + self.token()
    }

    /// The request that this client makes of a method, a path or URL, and a body.
    pub open spec fn request_for(
        &self,
        method: Method,
        url: Seq<char>,
        payload: Map<Seq<char>, JsonView>,
    ) -> RequestView {
        RequestView {
            method,
            url: absolute_url(self.prefix@, url),
            authorization: self.authorization(),
            content_type: "application/json"@,
            payload,
        }
    }

    /// The read request that this client makes of a path or URL and its parameters.
    pub open spec fn get_request_for(&self, url: Seq<char>, entries: Entries) -> RequestView {
        self.request_for(Method::Get, with_query(url, entries), no_fields())
    }

    /// A client for the service's public address, with no token source yet.
    pub fn default() -> (spotify: Spotify)
        ensures
            spotify.prefix@ == "https://api.spotify.com/v1/"@,
            spotify.access_token is None,
            spotify.client_credentials_manager is None,
    {
        Spotify {
            prefix: String::from_str("https://api.spotify.com/v1/"),
            access_token: None,
            client_credentials_manager: None,
        }
    }

    pub fn prefix(self, prefix: &str) -> (spotify: Spotify)
        ensures
            spotify.prefix@ == prefix@,
            spotify.access_token == self.access_token,
            spotify.client_credentials_manager == self.client_credentials_manager,
    {
        let mut spotify = self;
        spotify.prefix = String::from_str(prefix);
        spotify
    }

    pub fn access_token(self, access_token: &str) -> (spotify: Spotify)
        ensures
            spotify.prefix == self.prefix,
            spotify.access_token is Some,
            spotify.access_token->0@ == access_token@,
            spotify.client_credentials_manager == self.client_credentials_manager,
    {
        let mut spotify = self;
        spotify.access_token = Some(String::from_str(access_token));
        spotify
    }

    pub fn client_credentials_manager(
        self,
        client_credential_manager: SpotifyClientCredentials,
    ) -> (spotify: Spotify)
        ensures
            spotify.prefix == self.prefix,
            spotify.access_token == self.access_token,
            spotify.client_credentials_manager == Some(client_credential_manager),
    {
        let mut spotify = self;
        spotify.client_credentials_manager = Some(client_credential_manager);
        spotify
    }

    /// Whether the client has a source for its token: what `build` and every
    /// call ask for.
    pub fn is_ready(&self) -> (ready: bool)
        ensures
            ready == self.has_auth(),
    {
        self.access_token.is_some() || self.client_credentials_manager.is_some()
    }

    /// Finishes the configuration. A client needs a token source.
    pub fn build(self) -> (spotify: Spotify)
        requires
            self.has_auth(),
        ensures
            spotify == self,
    {
        self
    }

    /// The value of the `Authorization` header: the configured token where
    /// there is one, else the one that the credentials manager supplies.
    pub fn auth_headers(&self) -> (header: String)
        requires
            self.has_auth(),
        ensures
            header@ == self.authorization(),
    {
        let mut header = String::from_str("Bearer ");
        match &self.access_token {
            Some(token) => {
                header.append(token.as_str());
            },
            None => {
                match &self.client_credentials_manager {
                    Some(manager) => {
                        let token = manager.get_access_token();
                        header.append(token.as_str());
                    },
                    None => {},
                }
            },
        }
        header
    }

    /// Plans one call: `url` made absolute, the two headers, and `payload`
    /// as the body.
    pub fn internal_call(
        &self,
        method: Method,
        url: &str,
        payload: serde_json::Map<String, serde_json::Value>,
    ) -> (request: Request)
        requires
            self.has_auth(),
        ensures
            request@ == self.request_for(method, url@, object_fields(payload)),
            request.payload == payload,
    {
        Request {
            method,
            url: resolve_url(self.prefix.as_str(), url),
            authorization: self.auth_headers(),
            content_type: String::from_str("application/json"),
            payload,
        }
    }

    /// Plans a read: the parameters, if there are any, follow `url` after a
    /// `?`; the body is the empty object.
    pub fn get(&self, url: &str, params: &Params) -> (request: Request)
        requires
            self.has_auth(),
        ensures
            request@ == self.get_request_for(url@, params@),
    {
        if !params.is_empty() {
            let param = convert_map_to_string(params);
            let mut url_with_params = String::from_str(url);
            url_with_params.append("?");
            url_with_params.append(param.as_str());
            proof {
                reveal_strlit("?");
                assert("?"@ =~= seq!['?']);
            }
            self.internal_call(Method::Get, url_with_params.as_str(), empty_object())
        } else {
            self.internal_call(Method::Get, url, empty_object())
        }
    }

    /// Plans a `POST` of `payload` to `url`.
    pub fn post(
        &self,
        url: &str,
        payload: serde_json::Map<String, serde_json::Value>,
    ) -> (request: Request)
        requires
            self.has_auth(),
        ensures
            request@ == self.request_for(Method::Post, url@, object_fields(payload)),
            request.payload == payload,
    {
        self.internal_call(Method::Post, url, payload)
    }

    /// Plans a `PUT` of `payload` to `url`.
    pub fn put(
        &self,
        url: &str,
        payload: serde_json::Map<String, serde_json::Value>,
    ) -> (request: Request)
        requires
            self.has_auth(),
        ensures
            request@ == self.request_for(Method::Put, url@, object_fields(payload)),
            request.payload == payload,
    {
        self.internal_call(Method::Put, url, payload)
    }

    /// Plans a `DELETE` at `url`, with `payload` as the body.
    pub fn delete(
        &self,
        url: &str,
        payload: serde_json::Map<String, serde_json::Value>,
    ) -> (request: Request)
        requires
            self.has_auth(),
        ensures
            request@ == self.request_for(Method::Delete, url@, object_fields(payload)),
            request.payload == payload,
    {
        self.internal_call(Method::Delete, url, payload)
    }

    /// What a read operation hands its caller once the body has been through
    /// the decoder: the value where it decoded, nothing where it did not.
    /// The decoder's error goes no further.
    pub fn convert_result<T>(&self, decoded: Result<T, serde_json::Error>) -> (value: Option<T>)
        ensures
            match decoded {
                Ok(v) => value == Some(v),
                Err(_) => value is None,
            },
    {
        match decoded {
            Ok(v) => Some(v),
            Err(_) => None,
        }
    }

    /// The canonical URI of the resource of kind `kind` that `raw` names.
    pub fn get_uri(&self, kind: Type, raw: &str) -> (uri: String)
        ensures
            uri@ == canonical_uri(kind.token(), raw@),
    {
        let mut uri = String::from_str("spotify:");
        uri.append(kind.as_str());
        uri.append(":");
        uri.append(self.get_id(kind, raw).as_str());
        proof {
            reveal_strlit(":");
            assert(":"@ =~= seq![':']);
        }
        uri
    }

    /// The canonical identifier of the resource of kind `kind` that `raw`
    /// names, be it written as a bare identifier, as a URI or as a URL. A
    /// tag of another kind is no error: the next form is tried, and in the
    /// end `raw` is handed back as it came.
    pub fn get_id(&self, kind: Type, raw: &str) -> (id: String)
        ensures
            id@ == canonical_id(kind.token(), raw@),
    {
        match read_form(kind, raw, ':') {
            Form::Tagged(id) => {
                return id;
            },
            _ => {},
        }
        match read_form(kind, raw, '/') {
            Form::Tagged(id) => {
                return id;
            },
            _ => {},
        }
        String::from_str(raw)
    }
}

} // verus!
