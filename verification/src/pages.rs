//! The dashboard's pages.
//!
//! A page is made in steps, and the library decides each of them. A route
//! names the one GET that it needs, if any. Once the reply is there, the
//! route's handler makes the typed value through the client and says what
//! is to be rendered: a template by name and the context for it. The
//! template engine is the caller's; what it rendered is handed back and
//! becomes the page, or the failure to render becomes the error.
use crate::client::{fetched_containers, fetched_version, trimmed, DockerClient, Reply};
use crate::error::{FetchError, PageError};
use crate::json::{lemma_view_of_children, members_view, Json, JsonView, Member};
use crate::model::{
    containers_context, version_context, ContainerView, Containers, Version, VersionView,
};
use vstd::prelude::*;

verus! {

/// The dashboard's routes.
#[derive(Clone, Copy, Debug, PartialEq, Eq, Structural)]
pub enum Route {
    /// `GET /`: the landing page.
    Root,
    /// `GET /infos`: the Engine's version.
    Infos,
    /// `GET /containers`: the Engine's containers.
    Containers,
}

/// The path at which a route is served.
pub open spec fn path_of(route: Route) -> Seq<char> {
    match route {
        Route::Root => "/"@,
        Route::Infos => "/infos"@,
        Route::Containers => "/containers"@,
    }
}

/// The GET that a route needs from the Engine at `base` before its page can
/// be made: none for the landing page, and for each other route the one URL
/// of what it shows.
pub open spec fn request_of(route: Route, base: Seq<char>) -> Option<Seq<char>> {
    match route {
        Route::Root => None,
        Route::Infos => Some(trimmed(base) + "/version"@),
        Route::Containers => Some(trimmed(base) + "/containers/json"@),
    }
}

impl Route {
    /// The path at which the route is served.
    pub fn path(&self) -> (path: &'static str)
        ensures
            path@ == path_of(*self),
    {
        match self {
            Route::Root => "/",
            Route::Infos => "/infos",
            Route::Containers => "/containers",
        }
    }

    /// The URL to GET before the route's handler is called, if it needs a
    /// reply at all. A route never needs more than this one GET.
    pub fn request(&self, client: &DockerClient) -> (url: Option<String>)
        ensures
            match request_of(*self, client@) {
                Some(wanted) => url matches Some(url) && url@ == wanted,
                None => url is None,
            },
    {
        match self {
            Route::Root => None,
            Route::Infos => Some(client.version_url()),
            Route::Containers => Some(client.containers_url()),
        }
    }
}

/// The name of the landing page's template.
pub const ROOT_TEMPLATE: &'static str = "index.html";

/// The name of the version page's template.
pub const INFOS_TEMPLATE: &'static str = "infos.html";

/// A page to render: the template's name and the context for it.
#[derive(Debug, PartialEq)]
pub struct Job {
    pub template: String,
    pub context: Json,
}

/// The mathematical value of a [`Job`].
pub struct JobView {
    pub template: Seq<char>,
    pub context: JsonView,
}

impl View for Job {
    type V = JobView;

    open spec fn view(&self) -> JobView {
        JobView { template: self.template@, context: self.context@ }
    }
}

/// A page as it is answered.
#[derive(Clone, Debug, PartialEq, Eq)]
pub struct Page {
    pub status: u16,
    pub html: String,
}

/// How `/containers` answers.
#[derive(Clone, Debug, PartialEq, Eq)]
pub enum ContainersMode {
    /// The listing is fetched and its context built; nothing is rendered.
    Data,
    /// The context is rendered with the named template.
    Rendered { template: String },
}

/// What `/containers` has produced.
#[derive(Debug, PartialEq)]
pub enum ContainersOutput {
    /// The rendering context of the listing; nothing is to be rendered.
    Data(Json),
    /// The page to render.
    Render(Job),
}

/// The mathematical value of a [`ContainersOutput`].
pub enum ContainersOutputView {
    Data(JsonView),
    Render(JobView),
}

impl View for ContainersOutput {
    type V = ContainersOutputView;

    open spec fn view(&self) -> ContainersOutputView {
        match self {
            ContainersOutput::Data(context) => ContainersOutputView::Data(context@),
            ContainersOutput::Render(job) => ContainersOutputView::Render(job@),
        }
    }
}

/// The mathematical value of a [`Page`].
pub struct PageView {
    pub status: u16,
    pub html: Seq<char>,
}

impl View for Page {
    type V = PageView;

    open spec fn view(&self) -> PageView {
        PageView { status: self.status, html: self.html@ }
    }
}

/// The landing page: its template, with an empty context.
pub open spec fn root_job() -> JobView {
    JobView { template: ROOT_TEMPLATE@, context: JsonView::Object(Seq::empty()) }
}

/// The version page: its template, with the version's fields as context.
pub open spec fn infos_job(version: VersionView) -> JobView {
    JobView { template: INFOS_TEMPLATE@, context: version_context(version) }
}

/// The containers page: the given template, with the listing as context.
pub open spec fn containers_job(template: Seq<char>, listing: Seq<ContainerView>) -> JobView {
    JobView { template, context: containers_context(listing) }
}

impl Job {
    /// The landing page.
    pub fn root() -> (job: Job)
        ensures
            job@ == root_job(),
    {
        let context = Json::Object(Vec::new());
        proof {
            lemma_view_of_children(context);
            assert(members_view(context->Object_0@) =~= Seq::<Member>::empty());
        }
        Job { template: String::from_str(ROOT_TEMPLATE), context }
    }

    /// The version page for `version`.
    pub fn infos(version: &Version) -> (job: Job)
        ensures
            job@ == infos_job(version@),
    {
        Job { template: String::from_str(INFOS_TEMPLATE), context: version.context() }
    }

    /// The containers page for `listing`, rendered with `template`.
    pub fn containers(template: &str, listing: &Containers) -> (job: Job)
        ensures
            job@ == containers_job(template@, listing@),
    {
        Job { template: String::from_str(template), context: listing.context() }
    }
}

/// The page that is made of what the template engine rendered: the text,
/// with status 200; or, where it rendered nothing, a template error.
pub open spec fn page_of(rendered: Option<Seq<char>>) -> Result<PageView, PageError> {
    match rendered {
        Some(html) => Ok(PageView { status: 200, html }),
        None => Err(PageError::Template),
    }
}

/// What `GET /infos` is to render, given what the fetch of the version
/// amounts to: the version page, or the error of the fetch.
pub open spec fn infos_step(fetched: Result<VersionView, FetchError>) -> Result<
    JobView,
    PageError,
> {
    match fetched {
        Ok(version) => Ok(infos_job(version)),
        Err(error) => Err(PageError::Fetch(error)),
    }
}

/// What `GET /containers` produces, given what the fetch of the listing
/// amounts to: the context of the listing or the page to render from it, as
/// the mode says, or the error of the fetch.
pub open spec fn containers_step(
    fetched: Result<Seq<ContainerView>, FetchError>,
    mode: ContainersMode,
) -> Result<ContainersOutputView, PageError> {
    match fetched {
        Ok(listing) => match mode {
            ContainersMode::Data => Ok(ContainersOutputView::Data(containers_context(listing))),
            ContainersMode::Rendered { template } => Ok(
                ContainersOutputView::Render(containers_job(template@, listing)),
            ),
        },
        Err(error) => Err(PageError::Fetch(error)),
    }
}

impl Page {
    /// The answer to a request whose page the template engine was asked to
    /// render: the text that it rendered, with status 200, or a template
    /// error where it rendered none, be it that the template is missing or
    /// that rendering failed.
    pub fn from_rendered(rendered: Option<String>) -> (result: Result<Page, PageError>)
        ensures
            match rendered {
                Some(html) => result matches Ok(page) && page_of(Some(html@)) == Ok::<
                    PageView,
                    PageError,
                >(page@),
                None => result matches Err(error) && page_of(None) == Err::<PageView, PageError>(
                    error,
                ),
            },
    {
        match rendered {
            Some(html) => Ok(Page { status: 200, html }),
            None => Err(PageError::Template),
        }
    }
}

/// `GET /`: the landing page is to be rendered. Nothing of the Engine goes
/// into it.
pub fn render_root() -> (job: Job)
    ensures
        job@ == root_job(),
{
    Job::root()
}

/// `GET /infos`: from the reply to the GET of the client's version URL,
/// the version page to render. Where the fetch fails the page fails with
/// its error, and nothing is to be rendered.
pub fn render_docker_infos(client: &DockerClient, reply: &Reply) -> (result: Result<
    Job,
    PageError,
>)
    ensures
        match result {
            Ok(job) => infos_step(fetched_version(*reply)) == Ok::<JobView, PageError>(job@),
            Err(error) => infos_step(fetched_version(*reply)) == Err::<JobView, PageError>(
                error,
            ),
        },
{
    match client.version(reply) {
        Ok(version) => Ok(Job::infos(&version)),
        Err(error) => Err(PageError::Fetch(error)),
    }
}

/// `GET /containers`: from the reply to the GET of the client's containers
/// URL, the rendering context of the listing, or the page to render from
/// it, as `mode` says. Where the fetch fails the page fails with its error.
pub fn render_containers(client: &DockerClient, reply: &Reply, mode: &ContainersMode) -> (result:
    Result<ContainersOutput, PageError>)
    ensures
        match result {
            Ok(output) => containers_step(fetched_containers(*reply), *mode) == Ok::<
                ContainersOutputView,
                PageError,
            >(output@),
            Err(error) => containers_step(fetched_containers(*reply), *mode) == Err::<
                ContainersOutputView,
                PageError,
            >(error),
        },
{
    match client.list_containers(reply) {
        Ok(listing) => match mode {
            ContainersMode::Data => Ok(ContainersOutput::Data(listing.context())),
            ContainersMode::Rendered { template } => Ok(
                ContainersOutput::Render(Job::containers(template.as_str(), &listing)),
            ),
        },
        Err(error) => Err(PageError::Fetch(error)),
    }
}

/// Whatever the library asks to have rendered, the context for it is an
/// object: the template engine is never handed a context that it cannot
/// take.
pub proof fn lemma_every_context_is_an_object(
    version: VersionView,
    template: Seq<char>,
    listing: Seq<ContainerView>,
)
    ensures
        root_job().context is Object,
        infos_job(version).context is Object,
        containers_job(template, listing).context is Object,
{
}

/// The landing page is the same whatever the Engine does: it needs no
/// request, what is to be rendered for it is fixed, and the page is the
/// rendered text with status 200.
pub proof fn lemma_landing_page_is_apart_from_the_engine(base: Seq<char>, html: Seq<char>)
    ensures
        request_of(Route::Root, base) is None,
        page_of(Some(html)) == Ok::<PageView, PageError>(PageView { status: 200, html }),
{
}

} // verus!
