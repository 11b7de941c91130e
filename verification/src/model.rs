//! What the Engine reports: its version and its containers.
//!
//! On the wire the Engine names the fields in PascalCase; a template sees
//! them in snake_case. Both sets of names are written out here, field by
//! field.
use crate::json::{
    items_view, lemma_member_found, lemma_member_ignores_other_names, lemma_view_of_children,
    member, members_view, text_member, Json, JsonView, Member,
};
use vstd::prelude::*;

verus! {

/// The Engine's version report.
#[derive(Clone, Debug, PartialEq, Eq)]
pub struct Version {
    pub version: String,
    pub api_version: String,
    pub os: String,
    pub arch: String,
    pub kernel_version: String,
}

/// The mathematical value of a [`Version`].
pub struct VersionView {
    pub version: Seq<char>,
    pub api_version: Seq<char>,
    pub os: Seq<char>,
    pub arch: Seq<char>,
    pub kernel_version: Seq<char>,
}

impl View for Version {
    type V = VersionView;

    open spec fn view(&self) -> VersionView {
        VersionView {
            version: self.version@,
            api_version: self.api_version@,
            os: self.os@,
            arch: self.arch@,
            kernel_version: self.kernel_version@,
        }
    }
}

/// The version that a document from `/version` reports: the document is an
/// object, and each of the five wire names leads to a string. Members under
/// other names are passed over. Any other document reports none.
pub open spec fn version_of(doc: JsonView) -> Option<VersionView> {
    match doc {
        JsonView::Object(members) => match (
            text_member(members, "Version"@),
            text_member(members, "ApiVersion"@),
            text_member(members, "Os"@),
            text_member(members, "Arch"@),
            text_member(members, "KernelVersion"@),
        ) {
            (Some(version), Some(api_version), Some(os), Some(arch), Some(kernel_version)) => Some(
                VersionView { version, api_version, os, arch, kernel_version },
            ),
            _ => None,
        },
        _ => None,
    }
}

/// The rendering context of a version: its fields under their own names.
pub open spec fn version_context(version: VersionView) -> JsonView {
    JsonView::Object(
        seq![
            Member { name: "version"@, value: JsonView::Text(version.version) },
            Member { name: "api_version"@, value: JsonView::Text(version.api_version) },
            Member { name: "os"@, value: JsonView::Text(version.os) },
            Member { name: "arch"@, value: JsonView::Text(version.arch) },
            Member { name: "kernel_version"@, value: JsonView::Text(version.kernel_version) },
        ],
    )
}

impl Version {
    /// Decodes the document that the Engine sends from `/version`.
    pub fn from_json(doc: &Json) -> (decoded: Option<Version>)
        ensures
            match decoded {
                Some(version) => version_of(doc@) == Some(version@),
                None => version_of(doc@) is None,
            },
    {
        match doc {
            Json::Object(members) => {
                proof {
                    lemma_view_of_children(*doc);
                }
                match (
                    Json::get_text(members, "Version"),
                    Json::get_text(members, "ApiVersion"),
                    Json::get_text(members, "Os"),
                    Json::get_text(members, "Arch"),
                    Json::get_text(members, "KernelVersion"),
                ) {
                    (
                        Some(version),
                        Some(api_version),
                        Some(os),
                        Some(arch),
                        Some(kernel_version),
                    ) => Some(
                        Version {
                            version: version.clone(),
                            api_version: api_version.clone(),
                            os: os.clone(),
                            arch: arch.clone(),
                            kernel_version: kernel_version.clone(),
                        },
                    ),
                    _ => None,
                }
            },
            _ => None,
        }
    }

    /// The rendering context for the version page.
    pub fn context(&self) -> (context: Json)
        ensures
            context@ == version_context(self@),
    {
        let mut members: Vec<(String, Json)> = Vec::new();
        members.push((String::from_str("version"), Json::Text(self.version.clone())));
        members.push((String::from_str("api_version"), Json::Text(self.api_version.clone())));
        members.push((String::from_str("os"), Json::Text(self.os.clone())));
        members.push((String::from_str("arch"), Json::Text(self.arch.clone())));
        members.push(
            (String::from_str("kernel_version"), Json::Text(self.kernel_version.clone())),
        );
        let context = Json::Object(members);
        proof {
            lemma_view_of_children(context);
            assert(members_view(members@) =~= version_context(self@)->Object_0);
        }
        context
    }
}

/// One container, as the Engine lists it.
#[derive(Clone, Debug, PartialEq, Eq)]
pub struct Container {
    pub id: String,
    pub names: Vec<String>,
    pub state: String,
    pub status: String,
}

/// The mathematical value of a [`Container`].
pub struct ContainerView {
    pub id: Seq<char>,
    pub names: Seq<Seq<char>>,
    pub state: Seq<char>,
    pub status: Seq<char>,
}

/// The texts of a list of strings, one by one.
pub open spec fn texts_view(texts: Seq<String>) -> Seq<Seq<char>> {
    Seq::new(texts.len(), |i: int| texts[i]@)
}

impl View for Container {
    type V = ContainerView;

    open spec fn view(&self) -> ContainerView {
        ContainerView {
            id: self.id@,
            names: texts_view(self.names@),
            state: self.state@,
            status: self.status@,
        }
    }
}

/// The containers of the Engine, in the order in which it lists them.
#[derive(Clone, Debug, PartialEq, Eq)]
pub struct Containers {
    pub containers: Vec<Container>,
}

/// The values of a list of containers, one by one.
pub open spec fn containers_view(containers: Seq<Container>) -> Seq<ContainerView> {
    Seq::new(containers.len(), |i: int| containers[i]@)
}

impl View for Containers {
    type V = Seq<ContainerView>;

    open spec fn view(&self) -> Seq<ContainerView> {
        containers_view(self.containers@)
    }
}

/// The strings of a document that is an array of strings, in its order; any
/// other document holds none.
pub open spec fn texts_of(doc: JsonView) -> Option<Seq<Seq<char>>> {
    match doc {
        JsonView::Array(items) => if forall|i: int| 0 <= i < items.len() ==> items[i] is Text {
            Some(Seq::new(items.len(), |i: int| items[i]->Text_0))
        } else {
            None
        },
        _ => None,
    }
}

/// The container that one element of the listing describes: the element is
/// an object in which `Id`, `State` and `Status` lead to strings and `Names`
/// to an array of strings. Members under other names are passed over. Any
/// other document describes none.
pub open spec fn container_of(doc: JsonView) -> Option<ContainerView> {
    match doc {
        JsonView::Object(members) => match (
            text_member(members, "Id"@),
            names_member(members),
            text_member(members, "State"@),
            text_member(members, "Status"@),
        ) {
            (Some(id), Some(names), Some(state), Some(status)) => Some(
                ContainerView { id, names, state, status },
            ),
            _ => None,
        },
        _ => None,
    }
}

/// The strings under `Names`, where the members give it an array of strings.
pub open spec fn names_member(members: Seq<Member>) -> Option<Seq<Seq<char>>> {
    match member(members, "Names"@) {
        Some(names) => texts_of(names),
        None => None,
    }
}

/// The containers that a document from `/containers/json` lists: the
/// document is an array and every element of it describes a container. The
/// result keeps the array's length and order. Where one element describes
/// none, neither does the document: no part of a listing is handed out.
pub open spec fn containers_of(doc: JsonView) -> Option<Seq<ContainerView>> {
    match doc {
        JsonView::Array(items) => if forall|i: int|
            0 <= i < items.len() ==> container_of(#[trigger] items[i]) is Some {
            Some(Seq::new(items.len(), |i: int| container_of(items[i])->0))
        } else {
            None
        },
        _ => None,
    }
}

/// The record under which a template sees one container.
pub open spec fn container_record(container: ContainerView) -> JsonView {
    JsonView::Object(
        seq![
            Member { name: "id"@, value: JsonView::Text(container.id) },
            Member {
                name: "names"@,
                value: JsonView::Array(
                    Seq::new(container.names.len(), |i: int| JsonView::Text(container.names[i])),
                ),
            },
            Member { name: "state"@, value: JsonView::Text(container.state) },
            Member { name: "status"@, value: JsonView::Text(container.status) },
        ],
    )
}

/// The rendering context of a listing: under `containers`, the record of
/// each container, in order.
pub open spec fn containers_context(containers: Seq<ContainerView>) -> JsonView {
    JsonView::Object(
        seq![
            Member {
                name: "containers"@,
                value: JsonView::Array(
                    Seq::new(containers.len(), |i: int| container_record(containers[i])),
                ),
            },
        ],
    )
}

/// Decodes an array of strings.
fn texts_from_json(doc: &Json) -> (decoded: Option<Vec<String>>)
    ensures
        match decoded {
            Some(texts) => texts_of(doc@) == Some(texts_view(texts@)),
            None => texts_of(doc@) is None,
        },
{
    match doc {
        Json::Array(items) => {
            proof {
                lemma_view_of_children(*doc);
            }
            let ghost values = items_view(items@);
            let mut texts: Vec<String> = Vec::new();
            let mut i: usize = 0;
            while i < items.len()
                invariant
                    i <= items.len(),
                    values == items_view(items@),
                    doc@ == JsonView::Array(values),
                    texts@.len() == i,
                    forall|j: int|
                        0 <= j < i ==> values[j] == JsonView::Text(#[trigger] texts@[j]@),
                decreases items.len() - i,
            {
                match &items[i] {
                    Json::Text(text) => {
                        texts.push(text.clone());
                    },
                    _ => {
                        assert(!(values[i as int] is Text));
                        return None;
                    },
                }
                i += 1;
            }
            proof {
                assert forall|j: int| 0 <= j < values.len() implies values[j] is Text by {
                    assert(values[j] == JsonView::Text(texts@[j]@));
                }
                assert(texts_of(doc@)->0 =~= texts_view(texts@));
            }
            Some(texts)
        },
        _ => None,
    }
}

impl Container {
    /// Decodes one element of the Engine's listing.
    pub fn from_json(doc: &Json) -> (decoded: Option<Container>)
        ensures
            match decoded {
                Some(container) => container_of(doc@) == Some(container@),
                None => container_of(doc@) is None,
            },
    {
        match doc {
            Json::Object(members) => {
                proof {
                    lemma_view_of_children(*doc);
                }
                let names = match Json::get(members, "Names") {
                    Some(names) => texts_from_json(names),
                    None => None,
                };
                match (
                    Json::get_text(members, "Id"),
                    names,
                    Json::get_text(members, "State"),
                    Json::get_text(members, "Status"),
                ) {
                    (Some(id), Some(names), Some(state), Some(status)) => Some(
                        Container {
                            id: id.clone(),
                            names,
                            state: state.clone(),
                            status: status.clone(),
                        },
                    ),
                    _ => None,
                }
            },
            _ => None,
        }
    }

    /// The record under which a template sees the container.
    pub fn record(&self) -> (record: Json)
        ensures
            record@ == container_record(self@),
    {
        let mut names: Vec<Json> = Vec::new();
        let mut i: usize = 0;
        while i < self.names.len()
            invariant
                i <= self.names.len(),
                names@.len() == i,
                forall|j: int|
                    0 <= j < i ==> (#[trigger] names@[j])@ == JsonView::Text(self.names@[j]@),
            decreases self.names.len() - i,
        {
            names.push(Json::Text(self.names[i].clone()));
            i += 1;
        }
        let names = Json::Array(names);
        let mut members: Vec<(String, Json)> = Vec::new();
        members.push((String::from_str("id"), Json::Text(self.id.clone())));
        members.push((String::from_str("names"), names));
        members.push((String::from_str("state"), Json::Text(self.state.clone())));
        members.push((String::from_str("status"), Json::Text(self.status.clone())));
        let record = Json::Object(members);
        proof {
            lemma_view_of_children(names);
            lemma_view_of_children(record);
            let wanted = container_record(self@)->Object_0;
            assert(names@->Array_0 =~= wanted[1].value->Array_0);
            assert(members_view(members@) =~= wanted);
        }
        record
    }
}

impl Containers {
    /// Decodes the document that the Engine sends from `/containers/json`.
    pub fn from_json(doc: &Json) -> (decoded: Option<Containers>)
        ensures
            match decoded {
                Some(listing) => containers_of(doc@) == Some(listing@),
                None => containers_of(doc@) is None,
            },
    {
        match doc {
            Json::Array(items) => {
                proof {
                    lemma_view_of_children(*doc);
                }
                let ghost values = items_view(items@);
                let mut containers: Vec<Container> = Vec::new();
                let mut i: usize = 0;
                while i < items.len()
                    invariant
                        i <= items.len(),
                        values == items_view(items@),
                        doc@ == JsonView::Array(values),
                        containers@.len() == i,
                        forall|j: int|
                            0 <= j < i ==> container_of(values[j]) == Some(
                                (#[trigger] containers@[j])@,
                            ),
                    decreases items.len() - i,
                {
                    match Container::from_json(&items[i]) {
                        Some(container) => {
                            containers.push(container);
                        },
                        None => {
                            assert(container_of(values[i as int]) is None);
                            return None;
                        },
                    }
                    i += 1;
                }
                let listing = Containers { containers };
                proof {
                    assert forall|j: int| 0 <= j < values.len() implies container_of(
                        #[trigger] values[j],
                    ) is Some by {
                        assert(container_of(values[j]) == Some(listing.containers@[j]@));
                    }
                    assert(containers_of(doc@)->0 =~= listing@);
                }
                Some(listing)
            },
            _ => None,
        }
    }

    /// The rendering context for the containers page.
    pub fn context(&self) -> (context: Json)
        ensures
            context@ == containers_context(self@),
    {
        let mut records: Vec<Json> = Vec::new();
        let mut i: usize = 0;
        while i < self.containers.len()
            invariant
                i <= self.containers.len(),
                records@.len() == i,
                forall|j: int|
                    0 <= j < i ==> (#[trigger] records@[j])@ == container_record(
                        self.containers@[j]@,
                    ),
            decreases self.containers.len() - i,
        {
            records.push(self.containers[i].record());
            i += 1;
        }
        let records = Json::Array(records);
        let mut members: Vec<(String, Json)> = Vec::new();
        members.push((String::from_str("containers"), records));
        let context = Json::Object(members);
        proof {
            lemma_view_of_children(records);
            lemma_view_of_children(context);
            let wanted = containers_context(self@)->Object_0;
            assert(records@->Array_0 =~= wanted[0].value->Array_0);
            assert(members_view(members@) =~= wanted);
        }
        context
    }
}

/// Whether `name` is one of the wire names of a version's fields.
pub open spec fn is_version_name(name: Seq<char>) -> bool {
    ||| name == "Version"@
    ||| name == "ApiVersion"@
    ||| name == "Os"@
    ||| name == "Arch"@
    ||| name == "KernelVersion"@
}

/// Whether `name` is one of the wire names of a container's fields.
pub open spec fn is_container_name(name: Seq<char>) -> bool {
    ||| name == "Id"@
    ||| name == "Names"@
    ||| name == "State"@
    ||| name == "Status"@
}

/// The document in which the Engine reports `version`.
pub open spec fn version_document(version: VersionView) -> JsonView {
    JsonView::Object(
        seq![
            Member { name: "Version"@, value: JsonView::Text(version.version) },
            Member { name: "ApiVersion"@, value: JsonView::Text(version.api_version) },
            Member { name: "Os"@, value: JsonView::Text(version.os) },
            Member { name: "Arch"@, value: JsonView::Text(version.arch) },
            Member { name: "KernelVersion"@, value: JsonView::Text(version.kernel_version) },
        ],
    )
}

/// The element with which the Engine lists `container`.
pub open spec fn container_document(container: ContainerView) -> JsonView {
    JsonView::Object(
        seq![
            Member { name: "Id"@, value: JsonView::Text(container.id) },
            Member {
                name: "Names"@,
                value: JsonView::Array(
                    Seq::new(container.names.len(), |i: int| JsonView::Text(container.names[i])),
                ),
            },
            Member { name: "State"@, value: JsonView::Text(container.state) },
            Member { name: "Status"@, value: JsonView::Text(container.status) },
        ],
    )
}

/// The document with which the Engine lists `containers`.
pub open spec fn containers_document(containers: Seq<ContainerView>) -> JsonView {
    JsonView::Array(Seq::new(containers.len(), |i: int| container_document(containers[i])))
}

/// Where each of the five wire names leads to a string, the object decodes
/// to the version whose fields are exactly those strings.
pub proof fn lemma_version_fields_are_the_members(members: Seq<Member>)
    requires
        forall|name: Seq<char>| is_version_name(name) ==> text_member(members, name) is Some,
    ensures
        version_of(JsonView::Object(members)) == Some(
            VersionView {
                version: text_member(members, "Version"@)->0,
                api_version: text_member(members, "ApiVersion"@)->0,
                os: text_member(members, "Os"@)->0,
                arch: text_member(members, "Arch"@)->0,
                kernel_version: text_member(members, "KernelVersion"@)->0,
            },
        ),
{
    assert(is_version_name("Version"@));
    assert(is_version_name("ApiVersion"@));
    assert(is_version_name("Os"@));
    assert(is_version_name("Arch"@));
    assert(is_version_name("KernelVersion"@));
}

/// A version survives the wire: the document that reports it decodes to it.
pub proof fn lemma_version_round_trip(version: VersionView)
    ensures
        version_of(version_document(version)) == Some(version),
{
    reveal_strlit("Version");
    reveal_strlit("ApiVersion");
    reveal_strlit("Os");
    reveal_strlit("Arch");
    reveal_strlit("KernelVersion");
    let members = version_document(version)->Object_0;
    assert("Version"@.len() == 7 && "ApiVersion"@.len() == 10 && "Os"@.len() == 2);
    assert("Arch"@.len() == 4 && "KernelVersion"@.len() == 13);
    assert(members.len() == 5);
    assert(members[1].name == "ApiVersion"@ && members[2].name == "Os"@);
    assert(members[3].name == "Arch"@ && members[4].name == "KernelVersion"@);
    lemma_member_found(members, 0, "Version"@);
    lemma_member_found(members, 1, "ApiVersion"@);
    lemma_member_found(members, 2, "Os"@);
    lemma_member_found(members, 3, "Arch"@);
    lemma_member_found(members, 4, "KernelVersion"@);
}

/// An object in which one of the five wire names leads to no string decodes
/// to no version at all.
pub proof fn lemma_version_needs_every_field(members: Seq<Member>, name: Seq<char>)
    requires
        is_version_name(name),
        text_member(members, name) is None,
    ensures
        version_of(JsonView::Object(members)) is None,
{
}

/// A member under a name that is no wire name of a version changes nothing
/// about the version that an object decodes to.
pub proof fn lemma_version_ignores_other_members(members: Seq<Member>, at: int, extra: Member)
    requires
        0 <= at <= members.len(),
        !is_version_name(extra.name),
    ensures
        version_of(JsonView::Object(members.insert(at, extra))) == version_of(
            JsonView::Object(members),
        ),
{
    lemma_member_ignores_other_names(members, at, extra, "Version"@);
    lemma_member_ignores_other_names(members, at, extra, "ApiVersion"@);
    lemma_member_ignores_other_names(members, at, extra, "Os"@);
    lemma_member_ignores_other_names(members, at, extra, "Arch"@);
    lemma_member_ignores_other_names(members, at, extra, "KernelVersion"@);
}

/// Where `Id`, `State` and `Status` lead to strings and `Names` to an array
/// of strings, the element describes the container whose fields are exactly
/// those.
pub proof fn lemma_container_fields_are_the_members(members: Seq<Member>)
    requires
        text_member(members, "Id"@) is Some,
        names_member(members) is Some,
        text_member(members, "State"@) is Some,
        text_member(members, "Status"@) is Some,
    ensures
        container_of(JsonView::Object(members)) == Some(
            ContainerView {
                id: text_member(members, "Id"@)->0,
                names: names_member(members)->0,
                state: text_member(members, "State"@)->0,
                status: text_member(members, "Status"@)->0,
            },
        ),
{
}

/// A container survives the wire: the element that lists it decodes to it.
pub proof fn lemma_container_round_trip(container: ContainerView)
    ensures
        container_of(container_document(container)) == Some(container),
{
    reveal_strlit("Id");
    reveal_strlit("Names");
    reveal_strlit("State");
    reveal_strlit("Status");
    let members = container_document(container)->Object_0;
    assert("Id"@.len() == 2 && "Names"@.len() == 5 && "State"@.len() == 5);
    assert("Status"@.len() == 6 && "Names"@[0] != "State"@[0]);
    assert(members.len() == 4);
    assert(members[1].name == "Names"@ && members[2].name == "State"@);
    assert(members[3].name == "Status"@);
    lemma_member_found(members, 0, "Id"@);
    lemma_member_found(members, 1, "Names"@);
    lemma_member_found(members, 2, "State"@);
    lemma_member_found(members, 3, "Status"@);
    assert(texts_of(members[1].value)->0 =~= container.names);
}

/// An element in which `Id`, `State` or `Status` leads to no string, or
/// `Names` to no array of strings, describes no container at all.
pub proof fn lemma_container_needs_every_field(members: Seq<Member>, name: Seq<char>)
    requires
        is_container_name(name),
        if name == "Names"@ {
            names_member(members) is None
        } else {
            text_member(members, name) is None
        },
    ensures
        container_of(JsonView::Object(members)) is None,
{
    reveal_strlit("Id");
    reveal_strlit("Names");
    reveal_strlit("State");
    reveal_strlit("Status");
    assert("Names"@[0] != "State"@[0]);
}

/// A member under a name that is no wire name of a container changes
/// nothing about the container that an element describes.
pub proof fn lemma_container_ignores_other_members(members: Seq<Member>, at: int, extra: Member)
    requires
        0 <= at <= members.len(),
        !is_container_name(extra.name),
    ensures
        container_of(JsonView::Object(members.insert(at, extra))) == container_of(
            JsonView::Object(members),
        ),
{
    lemma_member_ignores_other_names(members, at, extra, "Id"@);
    lemma_member_ignores_other_names(members, at, extra, "Names"@);
    lemma_member_ignores_other_names(members, at, extra, "State"@);
    lemma_member_ignores_other_names(members, at, extra, "Status"@);
}

/// Where every element of an array describes a container, the listing has
/// the array's length and order: its container at each place is the one
/// that the element at that place describes.
pub proof fn lemma_listing_keeps_length_and_order(items: Seq<JsonView>)
    requires
        forall|i: int| 0 <= i < items.len() ==> container_of(#[trigger] items[i]) is Some,
    ensures
        containers_of(JsonView::Array(items)) matches Some(listing) && listing.len() == items.len()
            && forall|i: int|
            0 <= i < items.len() ==> container_of(items[i]) == Some(#[trigger] listing[i]),
{
}

/// A listing survives the wire: the document that lists the containers
/// decodes to them, as many and in the same order.
pub proof fn lemma_listing_round_trip(containers: Seq<ContainerView>)
    ensures
        containers_of(containers_document(containers)) == Some(containers),
{
    let items = containers_document(containers)->Array_0;
    assert forall|i: int| 0 <= i < items.len() implies container_of(#[trigger] items[i]) == Some(
        containers[i],
    ) by {
        lemma_container_round_trip(containers[i]);
    }
    assert(containers_of(containers_document(containers))->0 =~= containers);
}

/// Where one element of an array describes no container, the array yields no
/// listing: not even the containers before that element are handed out.
pub proof fn lemma_listing_needs_every_element(items: Seq<JsonView>, at: int)
    requires
        0 <= at < items.len(),
        container_of(items[at]) is None,
    ensures
        containers_of(JsonView::Array(items)) is None,
{
}

} // verus!
