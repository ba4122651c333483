//! The served API description: document metadata, tags, security schemes,
//! component schemas and path items.
//!
//! Schema bodies (`S`) and operation bodies (`B`) are carried through
//! untouched; the library reads and writes only names, tags and metadata.

use crate::names::{registered, registrations, NameMap};
use crate::text::{join, joined, option_text, slice_texts, texts};
use vstd::prelude::*;
use vstd::string::StringExecFns;

verus! {

/// Title, version and description of the described API.
#[derive(Debug)]
pub struct Info {
    pub title: String,
    pub version: String,
    pub description: Option<String>,
}

/// What an [`Info`] says.
pub struct InfoView {
    pub title: Seq<char>,
    pub version: Seq<char>,
    pub description: Option<Seq<char>>,
}

impl View for Info {
    type V = InfoView;

    open spec fn view(&self) -> InfoView {
        InfoView {
            title: self.title@,
            version: self.version@,
            description: option_text(self.description),
        }
    }
}

/// The line that names the API: its title, then ` v` and its version.
pub open spec fn headline(info: InfoView) -> Seq<char> {
    info.title + " v"@ + info.version
}

impl Info {
    /// Metadata with the given title and version and no description.
    pub fn new(title: String, version: String) -> (info: Self)
        ensures
            info@ == (InfoView { title: title@, version: version@, description: None }),
    {
        Info { title, version, description: None }
    }

    /// The line that names the API when the document is served.
    pub fn headline(&self) -> (line: String)
        ensures
            line@ == headline(self@),
    {
        let mut line = self.title.clone();
        line.append(" v");
        line.append(self.version.as_str());
        line
    }
}

impl Default for Info {
    /// Empty title and version, no description.
    fn default() -> (info: Self)
        ensures
            info@ == (InfoView {
                title: Seq::<char>::empty(),
                version: Seq::<char>::empty(),
                description: None,
            }),
    {
        Info { title: String::new(), version: String::new(), description: None }
    }
}

/// A tag that groups operations in the document.
#[derive(Debug)]
pub struct Tag {
    pub name: String,
    pub description: Option<String>,
}

/// What a [`Tag`] says.
pub struct TagView {
    pub name: Seq<char>,
    pub description: Option<Seq<char>>,
}

impl View for Tag {
    type V = TagView;

    open spec fn view(&self) -> TagView {
        TagView { name: self.name@, description: option_text(self.description) }
    }
}

/// The views of a list of tags, in order.
pub open spec fn tag_views(tags: Seq<Tag>) -> Seq<TagView> {
    tags.map_values(|tag: Tag| tag@)
}

/// The views of an optional list of tags.
pub open spec fn option_tag_views(tags: Option<Vec<Tag>>) -> Option<Seq<TagView>> {
    match tags {
        Some(tags) => Some(tag_views(tags@)),
        None => None,
    }
}

/// Whether some tag of the list has this name.
pub open spec fn has_tag_named(tags: Seq<TagView>, name: Seq<char>) -> bool {
    exists|i: int| 0 <= i < tags.len() && (#[trigger] tags[i]).name == name
}

/// HTTP authentication schemes that a document can declare.
#[derive(Clone, Copy, Debug, PartialEq, Eq, Structural)]
pub enum HttpAuthScheme {
    Basic,
    Bearer,
}

/// An HTTP security scheme declared in the document.
#[derive(Debug)]
pub struct SecurityScheme {
    pub scheme: HttpAuthScheme,
    pub bearer_format: Option<String>,
    pub description: Option<String>,
}

/// What a [`SecurityScheme`] says.
pub struct SecuritySchemeView {
    pub scheme: HttpAuthScheme,
    pub bearer_format: Option<Seq<char>>,
    pub description: Option<Seq<char>>,
}

impl View for SecurityScheme {
    type V = SecuritySchemeView;

    open spec fn view(&self) -> SecuritySchemeView {
        SecuritySchemeView {
            scheme: self.scheme,
            bearer_format: option_text(self.bearer_format),
            description: option_text(self.description),
        }
    }
}

/// The name under which the bearer scheme is declared.
pub open spec fn bearer_name() -> Seq<char> {
    "bearer"@
}

/// The one scheme every served document declares: HTTP bearer with JWT
/// tokens.
pub open spec fn bearer_jwt() -> SecuritySchemeView {
    SecuritySchemeView {
        scheme: HttpAuthScheme::Bearer,
        bearer_format: Some("JWT"@),
        description: Some("JWT Bearer token"@),
    }
}

impl SecurityScheme {
    /// The HTTP bearer scheme with JWT tokens.
    pub fn bearer() -> (scheme: Self)
        ensures
            scheme@ == bearer_jwt(),
    {
        SecurityScheme {
            scheme: HttpAuthScheme::Bearer,
            bearer_format: Some("JWT".to_string()),
            description: Some("JWT Bearer token".to_string()),
        }
    }
}

/// The views of the schemes of a map, name by name.
pub open spec fn scheme_views(schemes: Map<Seq<char>, SecurityScheme>) -> Map<
    Seq<char>,
    SecuritySchemeView,
> {
    schemes.map_values(|scheme: SecurityScheme| scheme@)
}

/// Reusable parts of the document: schemas by name, security schemes by name.
pub struct Components<S> {
    pub schemas: NameMap<S>,
    pub security_schemes: NameMap<SecurityScheme>,
}

/// What a [`Components`] holds.
pub struct ComponentsView<S> {
    pub schemas: Map<Seq<char>, S>,
    pub security_schemes: Map<Seq<char>, SecuritySchemeView>,
}

impl<S> View for Components<S> {
    type V = ComponentsView<S>;

    open spec fn view(&self) -> ComponentsView<S> {
        ComponentsView {
            schemas: self.schemas@,
            security_schemes: scheme_views(self.security_schemes@),
        }
    }
}

/// Components with nothing in them.
pub open spec fn no_components<S>() -> ComponentsView<S> {
    ComponentsView { schemas: Map::empty(), security_schemes: Map::empty() }
}

impl<S> Components<S> {
    /// No schemas, no security schemes.
    pub fn new() -> (components: Self)
        ensures
            components@ == no_components::<S>(),
    {
        let components = Components { schemas: NameMap::new(), security_schemes: NameMap::new() };
        assert(scheme_views(components.security_schemes@) =~= Map::empty());
        components
    }

    /// Applies schema registrations in order: each stores its schema under
    /// its name, replacing a schema of that name.
    pub fn register_schemas(&mut self, entries: Vec<(String, S)>)
        ensures
            final(self)@.schemas == registered(old(self)@.schemas, registrations(entries@)),
            final(self)@.security_schemes == old(self)@.security_schemes,
    {
        self.schemas.insert_all(entries);
    }

    /// Declares `scheme` under `name`, replacing a scheme of that name.
    pub fn add_security_scheme(&mut self, name: String, scheme: SecurityScheme)
        ensures
            final(self)@.schemas == old(self)@.schemas,
            final(self)@.security_schemes == old(self)@.security_schemes.insert(name@, scheme@),
    {
        let ghost before = self.security_schemes@;
        self.security_schemes.insert(name, scheme);
        assert(scheme_views(before.insert(name@, scheme)) =~= scheme_views(before).insert(
            name@,
            scheme@,
        ));
    }
}

/// The methods that an operation can be registered under.
#[derive(Clone, Copy, Debug, PartialEq, Eq, Structural)]
pub enum HttpMethod {
    Get,
    Post,
    Put,
    Delete,
    Options,
    Head,
    Patch,
    Trace,
}

/// One operation of a path: its tags, and a body that is carried through.
pub struct Operation<B> {
    pub tags: Option<Vec<String>>,
    pub body: B,
}

/// What an [`Operation`] holds.
pub struct OperationView<B> {
    pub tags: Option<Seq<Seq<char>>>,
    pub body: B,
}

/// The texts of an optional list of tags.
pub open spec fn option_texts(tags: Option<Vec<String>>) -> Option<Seq<Seq<char>>> {
    match tags {
        Some(tags) => Some(texts(tags@)),
        None => None,
    }
}

impl<B> View for Operation<B> {
    type V = OperationView<B>;

    open spec fn view(&self) -> OperationView<B> {
        OperationView { tags: option_texts(self.tags), body: self.body }
    }
}

/// The operation with one more tag at the end of its tags.
pub open spec fn tagged<B>(operation: OperationView<B>, tag: Seq<char>) -> OperationView<B> {
    OperationView {
        tags: Some(
            match operation.tags {
                Some(tags) => tags.push(tag),
                None => seq![tag],
            },
        ),
        body: operation.body,
    }
}

impl<B> Operation<B> {
    /// An operation without tags.
    pub fn new(body: B) -> (operation: Self)
        ensures
            operation@ == (OperationView { tags: None, body }),
    {
        Operation { tags: None, body }
    }

    /// Appends `tag` to the operation's tags, starting the list if there is
    /// none.
    pub fn with_tag(self, tag: String) -> (operation: Self)
        ensures
            operation@ == tagged(self@, tag@),
    {
        let mut tags = match self.tags {
            Some(tags) => tags,
            None => Vec::new(),
        };
        let ghost before = tags@;
        tags.push(tag);
        proof {
            assert(texts(tags@) =~= texts(before).push(tag@));
            assert(texts(Seq::<String>::empty()).push(tag@) =~= seq![tag@]);
        }
        Operation { tags: Some(tags), body: self.body }
    }
}

/// The operations of one path, by method.
pub struct PathItem<B> {
    pub get: Option<Operation<B>>,
    pub put: Option<Operation<B>>,
    pub post: Option<Operation<B>>,
    pub delete: Option<Operation<B>>,
    pub options: Option<Operation<B>>,
    pub head: Option<Operation<B>>,
    pub patch: Option<Operation<B>>,
    pub trace: Option<Operation<B>>,
}

/// What a [`PathItem`] holds.
pub struct PathItemView<B> {
    pub get: Option<OperationView<B>>,
    pub put: Option<OperationView<B>>,
    pub post: Option<OperationView<B>>,
    pub delete: Option<OperationView<B>>,
    pub options: Option<OperationView<B>>,
    pub head: Option<OperationView<B>>,
    pub patch: Option<OperationView<B>>,
    pub trace: Option<OperationView<B>>,
}

/// The view of an optional operation.
pub open spec fn option_operation<B>(operation: Option<Operation<B>>) -> Option<OperationView<B>> {
    match operation {
        Some(operation) => Some(operation@),
        None => None,
    }
}

impl<B> View for PathItem<B> {
    type V = PathItemView<B>;

    open spec fn view(&self) -> PathItemView<B> {
        PathItemView {
            get: option_operation(self.get),
            put: option_operation(self.put),
            post: option_operation(self.post),
            delete: option_operation(self.delete),
            options: option_operation(self.options),
            head: option_operation(self.head),
            patch: option_operation(self.patch),
            trace: option_operation(self.trace),
        }
    }
}

/// A path with no operation.
pub open spec fn empty_item<B>() -> PathItemView<B> {
    PathItemView {
        get: None,
        put: None,
        post: None,
        delete: None,
        options: None,
        head: None,
        patch: None,
        trace: None,
    }
}

/// A path with the one operation, under `method`.
pub open spec fn single_item<B>(method: HttpMethod, operation: OperationView<B>) -> PathItemView<
    B,
> {
    let none = empty_item::<B>();
    match method {
        HttpMethod::Get => PathItemView { get: Some(operation), ..none },
        HttpMethod::Put => PathItemView { put: Some(operation), ..none },
        HttpMethod::Post => PathItemView { post: Some(operation), ..none },
        HttpMethod::Delete => PathItemView { delete: Some(operation), ..none },
        HttpMethod::Options => PathItemView { options: Some(operation), ..none },
        HttpMethod::Head => PathItemView { head: Some(operation), ..none },
        HttpMethod::Patch => PathItemView { patch: Some(operation), ..none },
        HttpMethod::Trace => PathItemView { trace: Some(operation), ..none },
    }
}

/// The methods reported for a path, in the order GET, POST, PUT, DELETE,
/// PATCH; the other three methods are not reported.
pub open spec fn reported_methods<B>(item: PathItemView<B>) -> Seq<Seq<char>> {
    (if item.get is Some {
        seq!["GET"@]
    } else {
        seq![]
    }) + (if item.post is Some {
        seq!["POST"@]
    } else {
        seq![]
    }) + (if item.put is Some {
        seq!["PUT"@]
    } else {
        seq![]
    }) + (if item.delete is Some {
        seq!["DELETE"@]
    } else {
        seq![]
    }) + (if item.patch is Some {
        seq!["PATCH"@]
    } else {
        seq![]
    })
}

impl<B> PathItem<B> {
    /// A path with no operation.
    pub fn empty() -> (item: Self)
        ensures
            item@ == empty_item::<B>(),
    {
        PathItem {
            get: None,
            put: None,
            post: None,
            delete: None,
            options: None,
            head: None,
            patch: None,
            trace: None,
        }
    }

    /// A path whose only operation is `operation`, under `method`.
    pub fn new(method: HttpMethod, operation: Operation<B>) -> (item: Self)
        ensures
            item@ == single_item(method, operation@),
    {
        let mut item = PathItem::empty();
        match method {
            HttpMethod::Get => {
                item.get = Some(operation);
            },
            HttpMethod::Put => {
                item.put = Some(operation);
            },
            HttpMethod::Post => {
                item.post = Some(operation);
            },
            HttpMethod::Delete => {
                item.delete = Some(operation);
            },
            HttpMethod::Options => {
                item.options = Some(operation);
            },
            HttpMethod::Head => {
                item.head = Some(operation);
            },
            HttpMethod::Patch => {
                item.patch = Some(operation);
            },
            HttpMethod::Trace => {
                item.trace = Some(operation);
            },
        }
        item
    }

    /// The reported methods of the path, in their fixed order.
    pub fn method_names(&self) -> (names: Vec<&'static str>)
        ensures
            slice_texts(names@) == reported_methods(self@),
    {
        let mut names: Vec<&'static str> = Vec::new();
        assert(slice_texts(names@) =~= Seq::empty());
        if self.get.is_some() {
            let ghost before = names@;
            names.push("GET");
            assert(slice_texts(names@) =~= slice_texts(before) + seq!["GET"@]);
        }
        if self.post.is_some() {
            let ghost before = names@;
            names.push("POST");
            assert(slice_texts(names@) =~= slice_texts(before) + seq!["POST"@]);
        }
        if self.put.is_some() {
            let ghost before = names@;
            names.push("PUT");
            assert(slice_texts(names@) =~= slice_texts(before) + seq!["PUT"@]);
        }
        if self.delete.is_some() {
            let ghost before = names@;
            names.push("DELETE");
            assert(slice_texts(names@) =~= slice_texts(before) + seq!["DELETE"@]);
        }
        if self.patch.is_some() {
            let ghost before = names@;
            names.push("PATCH");
            assert(slice_texts(names@) =~= slice_texts(before) + seq!["PATCH"@]);
        }
        assert(slice_texts(names@) =~= reported_methods(self@));
        names
    }

    /// The reported methods, separated by a comma and a space.
    pub fn methods_label(&self) -> (label: String)
        ensures
            label@ == joined(reported_methods(self@), ", "@),
    {
        let names = self.method_names();
        join(&names, ", ")
    }
}

/// The line that reports a path: the path, then its reported methods in
/// square brackets.
pub open spec fn path_line<B>(path: Seq<char>, item: PathItemView<B>) -> Seq<char> {
    path + " ["@ + joined(reported_methods(item), ", "@) + "]"@
}

/// The views of the path items of a map, path by path.
pub open spec fn item_views<B>(items: Map<Seq<char>, PathItem<B>>) -> Map<
    Seq<char>,
    PathItemView<B>,
> {
    items.map_values(|item: PathItem<B>| item@)
}

/// Path registrations as the model sees them: the path's characters and the
/// item's view.
pub open spec fn path_registrations<B>(entries: Seq<(String, PathItem<B>)>) -> Seq<
    (Seq<char>, PathItemView<B>),
> {
    entries.map_values(|entry: (String, PathItem<B>)| (entry.0@, entry.1@))
}

/// Viewing the items after registering them is registering their views.
pub proof fn lemma_item_views_registered<B>(
    start: Map<Seq<char>, PathItem<B>>,
    entries: Seq<(String, PathItem<B>)>,
)
    ensures
        item_views(registered(start, registrations(entries))) == registered(
            item_views(start),
            path_registrations(entries),
        ),
    decreases entries.len(),
{
    if entries.len() > 0 {
        let rest = entries.drop_last();
        lemma_item_views_registered(start, rest);
        assert(registrations(entries).drop_last() =~= registrations(rest));
        assert(path_registrations(entries).drop_last() =~= path_registrations(rest));
        let before = registered(start, registrations(rest));
        let last = entries.last();
        assert(item_views(before.insert(last.0@, last.1)) =~= item_views(before).insert(
            last.0@,
            last.1@,
        ));
    }
}

/// The served description of an API.
pub struct OpenApi<S, B> {
    pub info: Info,
    pub tags: Option<Vec<Tag>>,
    pub components: Option<Components<S>>,
    pub paths: NameMap<PathItem<B>>,
}

/// What an [`OpenApi`] holds.
pub struct OpenApiView<S, B> {
    pub info: InfoView,
    pub tags: Option<Seq<TagView>>,
    pub components: Option<ComponentsView<S>>,
    pub paths: Map<Seq<char>, PathItemView<B>>,
}

/// The view of optional components.
pub open spec fn option_components<S>(components: Option<Components<S>>) -> Option<
    ComponentsView<S>,
> {
    match components {
        Some(components) => Some(components@),
        None => None,
    }
}

impl<S, B> View for OpenApi<S, B> {
    type V = OpenApiView<S, B>;

    open spec fn view(&self) -> OpenApiView<S, B> {
        OpenApiView {
            info: self.info@,
            tags: option_tag_views(self.tags),
            components: option_components(self.components),
            paths: item_views(self.paths@),
        }
    }
}

/// The document that says nothing: empty title and version, no tags, no
/// components, no paths.
pub open spec fn blank_document<S, B>() -> OpenApiView<S, B> {
    OpenApiView {
        info: InfoView {
            title: Seq::<char>::empty(),
            version: Seq::<char>::empty(),
            description: None,
        },
        tags: None,
        components: None,
        paths: Map::empty(),
    }
}

impl<S, B> Default for OpenApi<S, B> {
    /// The document that says nothing.
    fn default() -> (document: Self)
        ensures
            document@ == blank_document::<S, B>(),
    {
        OpenApi::new(Info::default())
    }
}

impl<S, B> OpenApi<S, B> {
    /// A document with the given metadata and nothing else.
    pub fn new(info: Info) -> (document: Self)
        ensures
            document@ == (OpenApiView::<S, B> {
                info: info@,
                tags: None,
                components: None,
                paths: Map::empty(),
            }),
    {
        let document = OpenApi { info, tags: None, components: None, paths: NameMap::new() };
        assert(item_views(document.paths@) =~= Map::empty());
        document
    }

    /// One line for each path of the document, in the order of the paths:
    /// the path and the methods reported for it.
    pub fn path_lines(&self) -> (lines: Vec<String>)
        ensures
            lines@.len() == self.paths.names().len(),
            forall|i: int|
                0 <= i < lines@.len() ==> (#[trigger] lines@[i])@ == path_line(
                    self.paths.names()[i],
                    self@.paths[self.paths.names()[i]],
                ),
    {
        self.paths.ordered_facts();
        let mut lines: Vec<String> = Vec::new();
        let n = self.paths.len();
        let mut i: usize = 0;
        while i < n
            invariant
                n == self.paths.names().len(),
                i <= n,
                lines@.len() == i,
                forall|k: int|
                    0 <= k < self.paths.names().len() ==> self.paths@.dom().contains(
                        #[trigger] self.paths.names()[k],
                    ),
                forall|k: int|
                    0 <= k < i ==> (#[trigger] lines@[k])@ == path_line(
                        self.paths.names()[k],
                        self@.paths[self.paths.names()[k]],
                    ),
            decreases n - i,
        {
            let item = self.paths.value_at(i);
            let mut line = self.paths.name_at(i).to_string();
            line.append(" [");
            let label = item.methods_label();
            line.append(label.as_str());
            line.append("]");
            proof {
                let name = self.paths.names()[i as int];
                assert(self@.paths[name] == self.paths@[name]@);
            }
            lines.push(line);
            i += 1;
        }
        lines
    }

    /// Applies path registrations in order: each puts its item at its path,
    /// replacing an item that stood there.
    pub fn register_paths(&mut self, entries: Vec<(String, PathItem<B>)>)
        ensures
            final(self)@.paths == registered(old(self)@.paths, path_registrations(entries@)),
            final(self)@.info == old(self)@.info,
            final(self)@.tags == old(self)@.tags,
            final(self)@.components == old(self)@.components,
    {
        proof {
            lemma_item_views_registered(self.paths@, entries@);
        }
        self.paths.insert_all(entries);
    }
}

} // verus!
