//! The Engine client: which URL to GET, and what a reply amounts to.
//!
//! The client holds the base URL and nothing else. Its caller owns the HTTP
//! transport: it sends a GET to the URL that the client names and reports
//! the outcome as a [`Reply`], from which the client makes a typed value or
//! an error.
use crate::error::{ConfigError, FetchError};
use crate::json::{parsed, text_member, Json, JsonView, Member};
use crate::model::{
    container_of, containers_of, is_version_name, lemma_listing_keeps_length_and_order,
    lemma_version_fields_are_the_members, version_of, ContainerView, Containers, Version,
    VersionView,
};
use vstd::prelude::*;

verus! {

/// `reqwest::Error`: why a URL was refused.
#[verifier::external_type_specification]
#[verifier::external_body]
pub struct ExUrlError(reqwest::Error);

/// What reqwest's `into_url` makes of a text: the serialisation of the URL
/// that it parses to, or `None` where it refuses the text.
pub uninterp spec fn base_url(text: Seq<char>) -> Option<Seq<char>>;

/// `into_url` of `reqwest::IntoUrl`, which parses the text as a URL and
/// refuses one without a host; a URL that is accepted comes back in its
/// serialised form. The contract gives the outcome its name, [`base_url`]:
/// the same text always fares the same, and it is refused exactly when the
/// call returns an error.
///
/// The method belongs to a sealed supertrait of `IntoUrl` and so can be
/// reached through the bound alone; the client calls this with a `&str`.
#[verifier::external_body]
fn into_url<U: reqwest::IntoUrl + View<V = Seq<char>>>(url: U) -> (out: Result<
    String,
    reqwest::Error,
>)
    ensures
        match out {
            Ok(accepted) => base_url(url@) == Some(accepted@),
            Err(_) => base_url(url@) is None,
        },
{
    url.into_url().map(String::from)
}

/// The address at which a Docker Engine listens when nothing else is
/// configured.
pub const DEFAULT_API_URL: &'static str = "http://localhost:42069";

/// A client for one Docker Engine. It is made once and never changes, so it
/// can be shared by any number of concurrent requests.
#[derive(Debug, PartialEq, Eq)]
pub struct DockerClient {
    api_url: String,
}

impl View for DockerClient {
    type V = Seq<char>;

    /// The base URL, as the client writes it.
    closed spec fn view(&self) -> Seq<char> {
        self.api_url@
    }
}

/// The base without a slash at its end.
pub open spec fn trimmed(base: Seq<char>) -> Seq<char> {
    if base.len() > 0 && base.last() == '/' {
        base.drop_last()
    } else {
        base
    }
}

/// Whether `url` is the serialised form of a URL that was accepted.
pub open spec fn is_base_url(url: Seq<char>) -> bool {
    exists|text: Seq<char>| base_url(text) == Some(url)
}

impl DockerClient {
    /// A client never holds anything but an accepted URL.
    #[verifier::type_invariant]
    spec fn holds_base_url(&self) -> bool {
        is_base_url(self.api_url@)
    }
}

impl Clone for DockerClient {
    fn clone(&self) -> (copy: DockerClient)
        ensures
            copy@ == self@,
    {
        proof {
            use_type_invariant(self);
        }
        DockerClient { api_url: self.api_url.clone() }
    }
}

/// The outcome of one GET, as the transport reports it.
#[derive(Clone, Debug, PartialEq, Eq)]
pub enum Reply {
    /// No response: the Engine could not be reached, the request timed out,
    /// or the body broke off.
    NoResponse,
    /// A complete response.
    Response { status: u16, body: Vec<u8> },
}

/// Whether an HTTP status reports success.
pub open spec fn is_success(status: u16) -> bool {
    200 <= status <= 299
}

/// The document that a reply carries. A missing response is a transport
/// error; a status that reports no success is an upstream error, whatever
/// the body holds; a body that is no JSON text is a decode error.
pub open spec fn document_of(reply: Reply) -> Result<JsonView, FetchError> {
    match reply {
        Reply::NoResponse => Err(FetchError::Transport),
        Reply::Response { status, body } => if !is_success(status) {
            Err(FetchError::Upstream { status })
        } else {
            match parsed(body@) {
                Some(doc) => Ok(doc),
                None => Err(FetchError::Decode),
            }
        },
    }
}

/// What a reply to the GET of `/version` amounts to.
pub open spec fn fetched_version(reply: Reply) -> Result<VersionView, FetchError> {
    match document_of(reply) {
        Ok(doc) => match version_of(doc) {
            Some(version) => Ok(version),
            None => Err(FetchError::Decode),
        },
        Err(error) => Err(error),
    }
}

/// What a reply to the GET of `/containers/json` amounts to.
pub open spec fn fetched_containers(reply: Reply) -> Result<Seq<ContainerView>, FetchError> {
    match document_of(reply) {
        Ok(doc) => match containers_of(doc) {
            Some(listing) => Ok(listing),
            None => Err(FetchError::Decode),
        },
        Err(error) => Err(error),
    }
}

impl Reply {
    /// The JSON document of the reply.
    pub fn document(&self) -> (result: Result<Json, FetchError>)
        ensures
            match result {
                Ok(doc) => document_of(*self) == Ok::<JsonView, FetchError>(doc@),
                Err(error) => document_of(*self) == Err::<JsonView, FetchError>(error),
            },
    {
        match self {
            Reply::NoResponse => Err(FetchError::Transport),
            Reply::Response { status, body } => {
                if *status < 200 || *status > 299 {
                    Err(FetchError::Upstream { status: *status })
                } else {
                    match Json::parse(body.as_slice()) {
                        Some(doc) => Ok(doc),
                        None => Err(FetchError::Decode),
                    }
                }
            },
        }
    }
}

impl DockerClient {
    /// A client for the Engine at `url`. The URL must be one that a request
    /// can be sent to; the client keeps it in its serialised form.
    pub fn new(url: &str) -> (result: Result<DockerClient, ConfigError>)
        ensures
            match result {
                Ok(client) => base_url(url@) == Some(client@),
                Err(_) => base_url(url@) is None,
            },
    {
        match into_url(url) {
            Ok(api_url) => Ok(DockerClient { api_url }),
            Err(_) => Err(ConfigError),
        }
    }

    /// The base URL: the serialised form of the URL that the client was
    /// made with.
    pub fn api_url(&self) -> (url: &str)
        ensures
            url@ == self@,
            is_base_url(url@),
    {
        proof {
            use_type_invariant(self);
        }
        self.api_url.as_str()
    }

    /// The URL of `path` at the Engine: the base without a slash at its end,
    /// followed by the path.
    fn url_of(&self, path: &str) -> (url: String)
        ensures
            url@ == trimmed(self@) + path@,
    {
        let base = self.api_url.as_str();
        let length: usize = base.unicode_len();
        if length > 0 && base.get_char(length - 1) == '/' {
            let stem = base.substring_char(0, length - 1);
            assert(stem@ =~= trimmed(self@));
            String::from_str(stem).concat(path)
        } else {
            String::from_str(base).concat(path)
        }
    }

    /// The URL to GET for the Engine's version: the path `/version` under
    /// the base, whether or not the base ends in a slash.
    pub fn version_url(&self) -> (url: String)
        ensures
            url@ == trimmed(self@) + "/version"@,
    {
        self.url_of("/version")
    }

    /// The URL to GET for the Engine's containers: the path
    /// `/containers/json` under the base, whether or not the base ends in a
    /// slash. Nothing but the path is added: no filter and no limit.
    pub fn containers_url(&self) -> (url: String)
        ensures
            url@ == trimmed(self@) + "/containers/json"@,
    {
        self.url_of("/containers/json")
    }

    /// The Engine's version, from the reply to the GET of
    /// [`version_url`](Self::version_url).
    pub fn version(&self, reply: &Reply) -> (result: Result<Version, FetchError>)
        ensures
            match result {
                Ok(version) => fetched_version(*reply) == Ok::<VersionView, FetchError>(version@),
                Err(error) => fetched_version(*reply) == Err::<VersionView, FetchError>(error),
            },
    {
        match reply.document() {
            Ok(doc) => match Version::from_json(&doc) {
                Some(version) => Ok(version),
                None => Err(FetchError::Decode),
            },
            Err(error) => Err(error),
        }
    }

    /// The Engine's containers, from the reply to the GET of
    /// [`containers_url`](Self::containers_url).
    pub fn list_containers(&self, reply: &Reply) -> (result: Result<Containers, FetchError>)
        ensures
            match result {
                Ok(listing) => fetched_containers(*reply) == Ok::<
                    Seq<ContainerView>,
                    FetchError,
                >(listing@),
                Err(error) => fetched_containers(*reply) == Err::<
                    Seq<ContainerView>,
                    FetchError,
                >(error),
            },
    {
        match reply.document() {
            Ok(doc) => match Containers::from_json(&doc) {
                Some(listing) => Ok(listing),
                None => Err(FetchError::Decode),
            },
            Err(error) => Err(error),
        }
    }
}

/// A slash at the end of the base makes no difference to the request URLs:
/// with it or without it, one slash stands between the base and the path.
pub proof fn lemma_final_slash_makes_no_difference(base: Seq<char>)
    requires
        base.len() == 0 || base.last() != '/',
    ensures
        trimmed(base) == base,
        trimmed(base.push('/')) == base,
{
    assert(base.push('/').drop_last() =~= base);
}

/// A status that reports no success makes the fetch fail as an upstream
/// error that carries the status, whatever the body holds.
pub proof fn lemma_failure_status_is_upstream_error(status: u16, body: Vec<u8>)
    requires
        !is_success(status),
    ensures
        fetched_version(Reply::Response { status, body }) == Err::<VersionView, FetchError>(
            FetchError::Upstream { status },
        ),
        fetched_containers(Reply::Response { status, body }) == Err::<
            Seq<ContainerView>,
            FetchError,
        >(FetchError::Upstream { status }),
{
}

/// Where a reply carries an object in which each of the five wire names
/// leads to a string, the fetch yields the version whose fields are exactly
/// those strings.
pub proof fn lemma_fetched_version_is_what_was_sent(reply: Reply, members: Seq<Member>)
    requires
        document_of(reply) == Ok::<JsonView, FetchError>(JsonView::Object(members)),
        forall|name: Seq<char>| is_version_name(name) ==> text_member(members, name) is Some,
    ensures
        fetched_version(reply) == Ok::<VersionView, FetchError>(
            VersionView {
                version: text_member(members, "Version"@)->0,
                api_version: text_member(members, "ApiVersion"@)->0,
                os: text_member(members, "Os"@)->0,
                arch: text_member(members, "Arch"@)->0,
                kernel_version: text_member(members, "KernelVersion"@)->0,
            },
        ),
{
    lemma_version_fields_are_the_members(members);
}

/// Where a reply carries an array whose every element describes a
/// container, the fetch yields as many containers, in the array's order,
/// each the one that its element describes.
pub proof fn lemma_fetched_listing_is_what_was_sent(reply: Reply, items: Seq<JsonView>)
    requires
        document_of(reply) == Ok::<JsonView, FetchError>(JsonView::Array(items)),
        forall|i: int| 0 <= i < items.len() ==> container_of(#[trigger] items[i]) is Some,
    ensures
        fetched_containers(reply) matches Ok(listing) && listing.len() == items.len()
            && forall|i: int|
            0 <= i < items.len() ==> container_of(items[i]) == Some(#[trigger] listing[i]),
{
    lemma_listing_keeps_length_and_order(items);
}

/// Where a reply carries an object in which one of the five wire names
/// leads to no string, the fetch fails as a decode error: no version is made
/// of the fields that are there.
pub proof fn lemma_missing_field_is_decode_error(
    reply: Reply,
    members: Seq<Member>,
    name: Seq<char>,
)
    requires
        document_of(reply) == Ok::<JsonView, FetchError>(JsonView::Object(members)),
        is_version_name(name),
        text_member(members, name) is None,
    ensures
        fetched_version(reply) == Err::<VersionView, FetchError>(FetchError::Decode),
{
}

/// Where a reply carries an array of which one element describes no
/// container, the fetch fails as a decode error: no listing is made of the
/// elements that do.
pub proof fn lemma_bad_element_is_decode_error(reply: Reply, items: Seq<JsonView>, at: int)
    requires
        document_of(reply) == Ok::<JsonView, FetchError>(JsonView::Array(items)),
        0 <= at < items.len(),
        container_of(items[at]) is None,
    ensures
        fetched_containers(reply) == Err::<Seq<ContainerView>, FetchError>(FetchError::Decode),
{
}

} // verus!
