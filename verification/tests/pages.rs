use docker_dashboard::client::{DockerClient, Reply, DEFAULT_API_URL};
use docker_dashboard::error::{FetchError, PageError};
use docker_dashboard::json::Json;
use docker_dashboard::model::{Container, Containers, Version};
use docker_dashboard::pages::{
    render_containers, render_docker_infos, render_root, ContainersMode, ContainersOutput, Job,
    Page, Route, INFOS_TEMPLATE, ROOT_TEMPLATE,
};

fn value(doc: &Json) -> serde_json::Value {
    match doc {
        Json::Null => serde_json::Value::Null,
        Json::Bool(b) => serde_json::Value::Bool(*b),
        Json::Number(n) => serde_json::Value::Number(n.clone()),
        Json::Text(s) => serde_json::Value::String(s.clone()),
        Json::Array(items) => serde_json::Value::Array(items.iter().map(value).collect()),
        Json::Object(members) => serde_json::Value::Object(
            members.iter().map(|(name, member)| (name.clone(), value(member))).collect(),
        ),
    }
}

fn render(templates: &tera::Tera, job: &Job) -> Option<String> {
    let context = tera::Context::from_value(value(&job.context)).ok()?;
    templates.render(&job.template, &context).ok()
}

fn templates() -> tera::Tera {
    let mut templates = tera::Tera::default();
    templates
        .add_raw_templates(vec![
            ("index.html", "<h1>Docker dashboard</h1>"),
            (
                "infos.html",
                "<ul><li>{{ version }}</li><li>{{ api_version }}</li><li>{{ os }}/{{ arch }}</li>\
                 <li>{{ kernel_version }}</li></ul>",
            ),
            (
                "containers.html",
                "{% for c in containers %}[{{ c.id }}|{{ c.names | join(sep=\",\") }}|\
                 {{ c.state }}|{{ c.status }}]{% endfor %}",
            ),
        ])
        .unwrap();
    templates
}

fn client() -> DockerClient {
    DockerClient::new(DEFAULT_API_URL).unwrap()
}

fn ok(body: &str) -> Reply {
    Reply::Response { status: 200, body: body.as_bytes().to_vec() }
}

fn sample_version() -> Version {
    Version {
        version: "24.0.2".to_string(),
        api_version: "1.43".to_string(),
        os: "linux".to_string(),
        arch: "amd64".to_string(),
        kernel_version: "6.2.0".to_string(),
    }
}

fn sample_listing() -> Containers {
    Containers {
        containers: vec![
            Container {
                id: "abc123".to_string(),
                names: vec!["/app".to_string()],
                state: "running".to_string(),
                status: "Up 2 hours".to_string(),
            },
            Container {
                id: "def456".to_string(),
                names: vec!["/db".to_string(), "/store".to_string()],
                state: "exited".to_string(),
                status: "Exited (0)".to_string(),
            },
        ],
    }
}

const VERSION_BODY: &str =
    r#"{"Version":"24.0.2","ApiVersion":"1.43","Os":"linux","Arch":"amd64","KernelVersion":"6.2.0"}"#;

const CONTAINERS_BODY: &str = r#"[
    {"Id":"abc123","Names":["/app"],"State":"running","Status":"Up 2 hours"},
    {"Id":"def456","Names":["/db","/store"],"State":"exited","Status":"Exited (0)"}
]"#;

#[test]
fn template_names() {
    assert_eq!(ROOT_TEMPLATE, "index.html");
    assert_eq!(INFOS_TEMPLATE, "infos.html");
}

#[test]
fn route_paths() {
    assert_eq!(Route::Root.path(), "/");
    assert_eq!(Route::Infos.path(), "/infos");
    assert_eq!(Route::Containers.path(), "/containers");
}

#[test]
fn route_requests() {
    assert_eq!(Route::Root.request(&client()), None);
    assert_eq!(
        Route::Infos.request(&client()),
        Some("http://localhost:42069/version".to_string())
    );
    assert_eq!(
        Route::Containers.request(&client()),
        Some("http://localhost:42069/containers/json".to_string())
    );
}

#[test]
fn root_is_the_landing_page_with_an_empty_context() {
    let job = render_root();
    assert_eq!(job, Job { template: "index.html".to_string(), context: Json::Object(vec![]) });
    assert_eq!(job, Job::root());
}

#[test]
fn root_is_rendered_with_status_200() {
    let page = Page::from_rendered(render(&templates(), &render_root())).unwrap();
    assert_eq!(page, Page { status: 200, html: "<h1>Docker dashboard</h1>".to_string() });
    assert!(!page.html.is_empty());
}

#[test]
fn root_is_the_same_whatever_the_engine_does() {
    let templates = templates();
    let unreachable = DockerClient::new("http://unreachable.invalid").unwrap();
    assert_eq!(Route::Root.request(&client()), None);
    assert_eq!(Route::Root.request(&unreachable), None);
    let first = render_root();
    let second = render_root();
    assert_eq!(first, second);
    assert_eq!(
        Page::from_rendered(render(&templates, &first)),
        Page::from_rendered(render(&templates, &second))
    );
}

#[test]
fn root_without_its_template_is_a_template_error() {
    let rendered = render(&tera::Tera::default(), &render_root());
    assert_eq!(rendered, None);
    assert_eq!(Page::from_rendered(rendered), Err(PageError::Template));
}

#[test]
fn infos_is_the_version_page_with_the_version_as_context() {
    let job = render_docker_infos(&client(), &ok(VERSION_BODY)).unwrap();
    assert_eq!(job.template, "infos.html");
    assert_eq!(job.context, sample_version().context());
    assert_eq!(job, Job::infos(&sample_version()));
}

#[test]
fn infos_page_shows_the_version() {
    let job = render_docker_infos(&client(), &ok(VERSION_BODY)).unwrap();
    let page = Page::from_rendered(render(&templates(), &job)).unwrap();
    assert_eq!(page.status, 200);
    assert!(page.html.contains("24.0.2"));
    assert!(page.html.contains("linux"));
    assert_eq!(
        page.html,
        "<ul><li>24.0.2</li><li>1.43</li><li>linux/amd64</li><li>6.2.0</li></ul>"
    );
}

#[test]
fn infos_fails_as_the_fetch_fails() {
    assert_eq!(
        render_docker_infos(&client(), &Reply::NoResponse),
        Err(PageError::Fetch(FetchError::Transport))
    );
    let unavailable = Reply::Response { status: 503, body: VERSION_BODY.as_bytes().to_vec() };
    assert_eq!(
        render_docker_infos(&client(), &unavailable),
        Err(PageError::Fetch(FetchError::Upstream { status: 503 }))
    );
    assert_eq!(
        render_docker_infos(&client(), &ok(r#"{"Version":"24.0.2"}"#)),
        Err(PageError::Fetch(FetchError::Decode))
    );
}

#[test]
fn infos_page_with_a_template_that_asks_too_much_is_a_template_error() {
    let mut templates = tera::Tera::default();
    templates.add_raw_template("infos.html", "{{ git_commit }}").unwrap();
    let job = render_docker_infos(&client(), &ok(VERSION_BODY)).unwrap();
    assert_eq!(Page::from_rendered(render(&templates, &job)), Err(PageError::Template));
}

#[test]
fn containers_as_data_yields_the_context() {
    let output =
        render_containers(&client(), &ok(CONTAINERS_BODY), &ContainersMode::Data).unwrap();
    assert_eq!(output, ContainersOutput::Data(sample_listing().context()));
    let empty = render_containers(&client(), &ok("[]"), &ContainersMode::Data);
    assert_eq!(
        empty,
        Ok(ContainersOutput::Data(Json::Object(vec![(
            "containers".to_string(),
            Json::Array(vec![])
        )])))
    );
}

#[test]
fn containers_rendered_yields_the_page_to_render() {
    let mode = ContainersMode::Rendered { template: "containers.html".to_string() };
    let output = render_containers(&client(), &ok(CONTAINERS_BODY), &mode).unwrap();
    assert_eq!(
        output,
        ContainersOutput::Render(Job {
            template: "containers.html".to_string(),
            context: sample_listing().context(),
        })
    );
    assert_eq!(
        output,
        ContainersOutput::Render(Job::containers("containers.html", &sample_listing()))
    );
}

#[test]
fn containers_page_shows_each_container_in_order() {
    let mode = ContainersMode::Rendered { template: "containers.html".to_string() };
    let output = render_containers(&client(), &ok(CONTAINERS_BODY), &mode).unwrap();
    let ContainersOutput::Render(job) = output else {
        panic!("nothing to render");
    };
    assert_eq!(
        Page::from_rendered(render(&templates(), &job)),
        Ok(Page {
            status: 200,
            html: "[abc123|&#x2F;app|running|Up 2 hours][def456|&#x2F;db,&#x2F;store|exited|Exited (0)]"
                .to_string(),
        })
    );
}

#[test]
fn containers_page_without_the_template_is_a_template_error() {
    let mode = ContainersMode::Rendered { template: "missing.html".to_string() };
    let output = render_containers(&client(), &ok(CONTAINERS_BODY), &mode).unwrap();
    let ContainersOutput::Render(job) = output else {
        panic!("nothing to render");
    };
    assert_eq!(Page::from_rendered(render(&templates(), &job)), Err(PageError::Template));
}

#[test]
fn containers_fail_as_the_fetch_fails() {
    for mode in
        [ContainersMode::Data, ContainersMode::Rendered { template: "containers.html".to_string() }]
    {
        assert_eq!(
            render_containers(&client(), &Reply::NoResponse, &mode),
            Err(PageError::Fetch(FetchError::Transport))
        );
        let refused = Reply::Response { status: 401, body: CONTAINERS_BODY.as_bytes().to_vec() };
        assert_eq!(
            render_containers(&client(), &refused, &mode),
            Err(PageError::Fetch(FetchError::Upstream { status: 401 }))
        );
        assert_eq!(
            render_containers(&client(), &ok(r#"[{"Id":"abc123"}]"#), &mode),
            Err(PageError::Fetch(FetchError::Decode))
        );
    }
}

#[test]
fn page_from_what_was_rendered() {
    assert_eq!(
        Page::from_rendered(Some("<p>hi</p>".to_string())),
        Ok(Page { status: 200, html: "<p>hi</p>".to_string() })
    );
    assert_eq!(
        Page::from_rendered(Some(String::new())),
        Ok(Page { status: 200, html: String::new() })
    );
    assert_eq!(Page::from_rendered(None), Err(PageError::Template));
}

#[test]
fn status_for_each_error() {
    assert_eq!(PageError::Fetch(FetchError::Transport).status(), 502);
    assert_eq!(PageError::Fetch(FetchError::Upstream { status: 404 }).status(), 502);
    assert_eq!(PageError::Fetch(FetchError::Upstream { status: 500 }).status(), 502);
    assert_eq!(PageError::Fetch(FetchError::Decode).status(), 500);
    assert_eq!(PageError::Template.status(), 500);
}

#[test]
fn message_for_each_error() {
    assert_eq!(
        PageError::Fetch(FetchError::Transport).message(),
        "The Docker Engine could not be reached."
    );
    assert_eq!(
        PageError::Fetch(FetchError::Upstream { status: 404 }).message(),
        "The Docker Engine answered with an error."
    );
    assert_eq!(
        PageError::Fetch(FetchError::Decode).message(),
        "The Docker Engine sent an answer that could not be read."
    );
    assert_eq!(PageError::Template.message(), "The page could not be rendered.");
}
