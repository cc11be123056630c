//! The API document: an OpenAPI description built from the same route table
//! that requests are answered from, so the two cannot drift apart.

use vstd::prelude::*;
use utoipa::openapi::path::{Paths, Operation, OperationBuilder, HttpMethod};
use utoipa::openapi::response::{Response, ResponseBuilder};
use utoipa::openapi::content::Content;
use utoipa::openapi::schema::{Schema, ObjectBuilder, ArrayBuilder, Ref, Type, SchemaFormat,
    KnownFormat, Components, ComponentsBuilder};
use utoipa::openapi::{OpenApi, OpenApiBuilder, Info, RefOr};
use crate::records::{Scalar, FieldType, BodyShape, Record, record_name, record_fields,
    route_body_shape};
use crate::routes::{Route, route_path, route_list, registered_paths, route_table, route_for,
    lemma_routed_iff_registered, lemma_paths_distinct};
use crate::reply::{content_type_text, route_content_type};

verus! {

#[verifier::external_type_specification]
#[verifier::external_body]
pub struct ExPaths(utoipa::openapi::path::Paths);

#[verifier::external_type_specification]
#[verifier::external_body]
pub struct ExOperation(utoipa::openapi::path::Operation);

#[verifier::external_type_specification]
#[verifier::external_body]
pub struct ExResponse(utoipa::openapi::response::Response);

#[verifier::external_type_specification]
#[verifier::external_body]
pub struct ExOpenApi(utoipa::openapi::OpenApi);

#[verifier::external_type_specification]
#[verifier::external_body]
pub struct ExJsonError(serde_json::Error);

#[verifier::external_type_specification]
#[verifier::external_body]
pub struct ExSchema(utoipa::openapi::schema::Schema);

#[verifier::external_type_specification]
#[verifier::external_body]
#[verifier::reject_recursive_types(T)]
pub struct ExRefOr<T>(utoipa::openapi::RefOr<T>);

#[verifier::external_type_specification]
#[verifier::external_body]
pub struct ExObjectBuilder(utoipa::openapi::schema::ObjectBuilder);

#[verifier::external_type_specification]
#[verifier::external_body]
pub struct ExComponents(utoipa::openapi::schema::Components);

#[verifier::external_type_specification]
#[verifier::external_body]
pub struct ExComponentsBuilder(utoipa::openapi::schema::ComponentsBuilder);

/// A schema's kind: its type, its format (empty when none) and, for an
/// array, the reference its items point to (empty otherwise).
pub type SchemaKind = (Seq<char>, Seq<char>, Seq<char>);

/// A schema: its kind, the kinds of its properties by name, and the names of
/// its required properties in order.
pub type SchemaView = (SchemaKind, Map<Seq<char>, SchemaKind>, Seq<Seq<char>>);

/// A response: its description and the schema kind under each content type.
pub type ResponseView = (Seq<char>, Map<Seq<char>, SchemaKind>);

/// An operation: its id, its summary and its responses by status code.
pub type OperationView = (Seq<char>, Option<Seq<char>>, Map<Seq<char>, ResponseView>);

/// What a schema (inline, not a reference) describes.
pub uninterp spec fn schema_view(s: RefOr<Schema>) -> SchemaView;

/// What an object schema under construction describes.
pub uninterp spec fn object_builder_view(b: ObjectBuilder) -> SchemaView;

/// The named schemas of a component set under construction.
pub uninterp spec fn components_builder_view(c: ComponentsBuilder) -> Map<Seq<char>, SchemaView>;

/// The named schemas of a component set.
pub uninterp spec fn components_view(c: Components) -> Map<Seq<char>, SchemaView>;

/// What a response describes.
pub uninterp spec fn response_view(r: Response) -> ResponseView;

/// What an operation describes.
pub uninterp spec fn operation_view(o: Operation) -> OperationView;

/// The operations of a path list: for each path, its operations keyed by
/// lower-case method name.
pub uninterp spec fn documented_operations(p: Paths) -> Map<Seq<char>, Map<Seq<char>, OperationView>>;

/// The document built from a title, a version, paths and components.
pub uninterp spec fn assembled_document(
    title: Seq<char>,
    version: Seq<char>,
    paths: Paths,
    components: Components,
) -> OpenApi;

/// The JSON text of a document without extensions. Extension entries
/// (`x-...` keys) are kept in hash maps and written in their walk order, so
/// only a document without them has one text.
pub uninterp spec fn document_text(doc: OpenApi) -> Seq<char>;

/// Whether a schema sets an extension map anywhere within it.
pub uninterp spec fn schema_has_extensions(s: RefOr<Schema>) -> bool;

/// Whether an object schema under construction sets an extension map
/// anywhere within it.
pub uninterp spec fn object_builder_has_extensions(b: ObjectBuilder) -> bool;

/// Whether a component set under construction sets an extension map
/// anywhere within it.
pub uninterp spec fn components_builder_has_extensions(c: ComponentsBuilder) -> bool;

/// Whether a component set sets an extension map anywhere within it.
pub uninterp spec fn components_has_extensions(c: Components) -> bool;

/// Whether a response sets an extension map anywhere within it.
pub uninterp spec fn response_has_extensions(r: Response) -> bool;

/// Whether an operation sets an extension map anywhere within it.
pub uninterp spec fn operation_has_extensions(o: Operation) -> bool;

/// Whether a path list sets an extension map anywhere within it.
pub uninterp spec fn paths_has_extensions(p: Paths) -> bool;

/// Whether a document sets an extension map anywhere within it.
pub uninterp spec fn document_has_extensions(doc: OpenApi) -> bool;

/// The paths that a path list documents.
pub open spec fn documented_paths(p: Paths) -> Set<Seq<char>> {
    documented_operations(p).dom()
}

/// No documented operations at all.
pub open spec fn no_operations() -> Map<Seq<char>, Map<Seq<char>, OperationView>> {
    Map::empty()
}

/// No named schemas at all.
pub open spec fn no_schemas() -> Map<Seq<char>, SchemaView> {
    Map::empty()
}

/// A schema with a kind and no properties.
pub open spec fn plain_schema(k: SchemaKind) -> SchemaView {
    (k, Map::empty(), Seq::empty())
}

/// Where a reference to the named component schema points.
pub open spec fn ref_location(name: Seq<char>) -> Seq<char> {
    "#/components/schemas/"@ + name
}

/// The kind of an object schema.
pub open spec fn object_kind() -> SchemaKind {
    ("object"@, Seq::empty(), Seq::empty())
}

/// The operations of `m` after the GET operation `o` is set under `path`:
/// a new path gets GET alone, an existing one keeps its other methods.
pub open spec fn with_get(
    m: Map<Seq<char>, Map<Seq<char>, OperationView>>,
    path: Seq<char>,
    o: OperationView,
) -> Map<Seq<char>, Map<Seq<char>, OperationView>> {
    if m.contains_key(path) {
        m.insert(path, m[path].insert("get"@, o))
    } else {
        m.insert(path, Map::empty().insert("get"@, o))
    }
}

/// The view of an optional string slice.
pub open spec fn str_option_view(s: Option<&str>) -> Option<Seq<char>> {
    match s {
        Some(t) => Some(t@),
        None => None,
    }
}

/// Relies on utoipa's `Paths::new`: a new path list is empty.
pub assume_specification[ utoipa::openapi::path::Paths::new ]() -> (r: Paths)
    ensures
        documented_operations(r) == no_operations(),
        !paths_has_extensions(r),
;

/// Relies on utoipa's `Paths::add_path_operation`: it inserts the path with a
/// GET operation alone when absent, and otherwise sets the GET operation of
/// the existing path item.
#[verifier::external_body]
fn add_get_operation(paths: &mut Paths, path: &str, operation: Operation)
    ensures
        documented_operations(*final(paths)) == with_get(
            documented_operations(*old(paths)),
            path@,
            operation_view(operation),
        ),
        !paths_has_extensions(*old(paths)) && !operation_has_extensions(operation)
            ==> !paths_has_extensions(*final(paths)),
{
    paths.add_path_operation(path, vec![HttpMethod::Get], operation)
}

/// Relies on utoipa's `ResponseBuilder` and `Content::new`: a response with a
/// description and one content type with its schema.
#[verifier::external_body]
fn response_with_content(
    description: &str,
    content_type: &str,
    schema: RefOr<Schema>,
) -> (r: Response)
    ensures
        response_view(r) == (description@, Map::<Seq<char>, SchemaKind>::empty().insert(
            content_type@,
            schema_view(schema).0,
        )),
        !schema_has_extensions(schema) ==> !response_has_extensions(r),
{
    ResponseBuilder::new()
        .description(description)
        .content(content_type, Content::new(Some(schema)))
        .build()
}

/// Relies on utoipa's `ObjectBuilder::schema_type`: the string schema.
#[verifier::external_body]
fn string_schema() -> (r: RefOr<Schema>)
    ensures
        schema_view(r) == plain_schema(("string"@, Seq::empty(), Seq::empty())),
        !schema_has_extensions(r),
{
    ObjectBuilder::new().schema_type(Type::String).into()
}

/// Relies on utoipa's `ObjectBuilder::schema_type`: the boolean schema.
#[verifier::external_body]
fn boolean_schema() -> (r: RefOr<Schema>)
    ensures
        schema_view(r) == plain_schema(("boolean"@, Seq::empty(), Seq::empty())),
        !schema_has_extensions(r),
{
    ObjectBuilder::new().schema_type(Type::Boolean).into()
}

/// Relies on utoipa's `ObjectBuilder::schema_type` and `format`: the
/// integer schema of format int32.
#[verifier::external_body]
fn int32_schema() -> (r: RefOr<Schema>)
    ensures
        schema_view(r) == plain_schema(("integer"@, "int32"@, Seq::empty())),
        !schema_has_extensions(r),
{
    ObjectBuilder::new()
        .schema_type(Type::Integer)
        .format(Some(SchemaFormat::KnownFormat(KnownFormat::Int32)))
        .into()
}

/// Relies on utoipa's `ArrayBuilder::items` and `Ref::from_schema_name`: an
/// array whose items refer to the named component schema.
#[verifier::external_body]
fn array_of_refs(schema_name: &str) -> (r: RefOr<Schema>)
    ensures
        schema_view(r) == plain_schema(("array"@, Seq::empty(), ref_location(schema_name@))),
        !schema_has_extensions(r),
{
    ArrayBuilder::new().items(Ref::from_schema_name(schema_name)).into()
}

/// Relies on utoipa's `ObjectBuilder::schema_type`: an object schema without
/// properties.
#[verifier::external_body]
fn object_builder() -> (r: ObjectBuilder)
    ensures
        object_builder_view(r) == plain_schema(object_kind()),
        !object_builder_has_extensions(r),
{
    ObjectBuilder::new().schema_type(Type::Object)
}

/// Relies on utoipa's `ObjectBuilder::property` and `required`: the object
/// gains a property, and appends its name to the required ones.
#[verifier::external_body]
fn with_required_property(
    object: ObjectBuilder,
    name: &str,
    schema: RefOr<Schema>,
) -> (r: ObjectBuilder)
    ensures
        object_builder_view(r) == (
            object_builder_view(object).0,
            object_builder_view(object).1.insert(name@, schema_view(schema).0),
            object_builder_view(object).2.push(name@),
        ),
        !object_builder_has_extensions(object) && !schema_has_extensions(schema)
            ==> !object_builder_has_extensions(r),
{
    object.property(name, schema).required(name)
}

/// Relies on utoipa's `From<ObjectBuilder> for RefOr<Schema>`.
#[verifier::external_body]
fn finish_object(object: ObjectBuilder) -> (r: RefOr<Schema>)
    ensures
        schema_view(r) == object_builder_view(object),
        !object_builder_has_extensions(object) ==> !schema_has_extensions(r),
{
    object.into()
}

/// Relies on utoipa's `ComponentsBuilder::new`: no schemas yet.
#[verifier::external_body]
fn components_builder() -> (r: ComponentsBuilder)
    ensures
        components_builder_view(r) == no_schemas(),
        !components_builder_has_extensions(r),
{
    ComponentsBuilder::new()
}

/// Relies on utoipa's `ComponentsBuilder::schema`: a named component schema.
#[verifier::external_body]
fn with_schema(
    components: ComponentsBuilder,
    name: &str,
    schema: RefOr<Schema>,
) -> (r: ComponentsBuilder)
    ensures
        components_builder_view(r) == components_builder_view(components).insert(
            name@,
            schema_view(schema),
        ),
        !components_builder_has_extensions(components) && !schema_has_extensions(schema)
            ==> !components_builder_has_extensions(r),
{
    components.schema(name, schema)
}

/// Relies on utoipa's `ComponentsBuilder::build`.
#[verifier::external_body]
fn finish_components(components: ComponentsBuilder) -> (r: Components)
    ensures
        components_view(r) == components_builder_view(components),
        !components_builder_has_extensions(components) ==> !components_has_extensions(r),
{
    components.build()
}

/// Relies on utoipa's `OperationBuilder`: an operation with an id, an
/// optional summary and one response under the given status code.
#[verifier::external_body]
fn operation_with_response(
    operation_id: &str,
    summary: Option<&str>,
    status: &str,
    response: Response,
) -> (r: Operation)
    ensures
        operation_view(r) == (
            operation_id@,
            str_option_view(summary),
            Map::<Seq<char>, ResponseView>::empty().insert(status@, response_view(response)),
        ),
        !response_has_extensions(response) ==> !operation_has_extensions(r),
{
    OperationBuilder::new()
        .operation_id(Some(operation_id))
        .summary(summary)
        .response(status, response)
        .build()
}

/// Relies on utoipa's `OpenApiBuilder` and `Info::new`: a document with the
/// given title, version, paths and component schemas.
#[verifier::external_body]
fn assemble_document(
    title: &str,
    version: &str,
    paths: &Paths,
    components: &Components,
) -> (r: OpenApi)
    ensures
        r == assembled_document(title@, version@, *paths, *components),
        !paths_has_extensions(*paths) && !components_has_extensions(*components)
            ==> !document_has_extensions(r),
{
    OpenApiBuilder::new()
        .info(Info::new(title, version))
        .paths(paths.clone())
        .components(Some(components.clone()))
        .build()
}

/// Relies on utoipa's `OpenApi::to_json`, which is `serde_json::to_string`
/// on a document whose map keys are all strings: it succeeds, and without
/// extensions every map it writes is ordered, so the text is the document's.
#[verifier::external_body]
fn document_to_json(doc: &OpenApi) -> (r: Result<String, serde_json::Error>)
    ensures
        r is Ok,
        r matches Ok(t) ==> (!document_has_extensions(*doc) ==> t@ == document_text(*doc)),
{
    doc.to_json()
}

/// The operation id each route is documented under: its handler's name.
pub open spec fn operation_id_of(r: Route) -> Seq<char> {
    match r {
        Route::ApiDocs => "openapi"@,
        Route::HelloWorld => "helloworld"@,
        Route::ComplexData => "complexdata"@,
    }
}

/// The description of each route's successful response.
pub open spec fn response_description_of(r: Route) -> Seq<char> {
    match r {
        Route::ApiDocs => "JSON file"@,
        Route::HelloWorld => "Hello world!"@,
        Route::ComplexData => "Complex data type"@,
    }
}

/// The summary line of each route's documentation, where it has one.
pub open spec fn summary_of(r: Route) -> Option<Seq<char>> {
    match r {
        Route::ApiDocs => Some("Return JSON version of an OpenAPI schema"@),
        _ => None,
    }
}

/// The status code key of a successful response.
pub open spec fn ok_status_key() -> Seq<char> {
    "200"@
}

/// The schema kind of a scalar.
pub open spec fn scalar_kind(k: Scalar) -> SchemaKind {
    match k {
        Scalar::Text => ("string"@, Seq::empty(), Seq::empty()),
        Scalar::Boolean => ("boolean"@, Seq::empty(), Seq::empty()),
        Scalar::Int32 => ("integer"@, "int32"@, Seq::empty()),
    }
}

/// The schema kind of a list of records: an array of references.
pub open spec fn list_kind(rec: Record) -> SchemaKind {
    ("array"@, Seq::empty(), ref_location(record_name(rec)))
}

/// The schema kind of a field type.
pub open spec fn field_kind(t: FieldType) -> SchemaKind {
    match t {
        FieldType::Scalar(k) => scalar_kind(k),
        FieldType::ListOf(rec) => list_kind(rec),
    }
}

/// The schema kind of a body shape.
pub open spec fn body_kind(b: BodyShape) -> SchemaKind {
    match b {
        BodyShape::Text => scalar_kind(Scalar::Text),
        BodyShape::ListOf(rec) => list_kind(rec),
    }
}

/// The property kinds of a field list, by name.
pub open spec fn properties_of(fs: Seq<(Seq<char>, FieldType)>) -> Map<Seq<char>, SchemaKind>
    decreases fs.len(),
{
    if fs.len() == 0 {
        Map::empty()
    } else {
        properties_of(fs.drop_last()).insert(fs.last().0, field_kind(fs.last().1))
    }
}

/// The names of a field list, in order.
pub open spec fn names_of(fs: Seq<(Seq<char>, FieldType)>) -> Seq<Seq<char>> {
    fs.map_values(|f: (Seq<char>, FieldType)| f.0)
}

/// The schema of a record: an object with one required property per field.
pub open spec fn record_view(rec: Record) -> SchemaView {
    (object_kind(), properties_of(record_fields(rec)), names_of(record_fields(rec)))
}

/// The component schemas of the service: each record under its name.
pub open spec fn service_components() -> Map<Seq<char>, SchemaView> {
    Map::<Seq<char>, SchemaView>::empty().insert(
        record_name(Record::ComplexData),
        record_view(Record::ComplexData),
    ).insert(record_name(Record::MyStruct), record_view(Record::MyStruct))
}

/// The documented operation of a route: its id and summary, and a single
/// 200 response with the route's description, content type and body schema.
pub open spec fn route_operation_view(r: Route) -> OperationView {
    (
        operation_id_of(r),
        summary_of(r),
        Map::<Seq<char>, ResponseView>::empty().insert(
            ok_status_key(),
            (
                response_description_of(r),
                Map::<Seq<char>, SchemaKind>::empty().insert(
                    content_type_text(route_content_type(r)),
                    body_kind(route_body_shape(r)),
                ),
            ),
        ),
    )
}

/// The operations documented for a list of routes, added in order.
pub open spec fn operations_of(rs: Seq<Route>) -> Map<Seq<char>, Map<Seq<char>, OperationView>>
    decreases rs.len(),
{
    if rs.len() == 0 {
        Map::empty()
    } else {
        with_get(operations_of(rs.drop_last()), route_path(rs.last()), route_operation_view(rs.last()))
    }
}

/// The operations of the service: every routed path has GET alone, with its
/// route's operation.
pub open spec fn service_operations() -> Map<Seq<char>, Map<Seq<char>, OperationView>> {
    Map::new(
        |p: Seq<char>| route_for(p) is Some,
        |p: Seq<char>| Map::<Seq<char>, OperationView>::empty().insert("get"@, route_operation_view(route_for(p)->0)),
    )
}

proof fn lemma_operations_of_table()
    ensures
        operations_of(route_list()) == service_operations(),
{
    lemma_paths_distinct();
    reveal_with_fuel(operations_of, 4);
    let rs = route_list();
    assert(rs.drop_last() =~= seq![Route::ApiDocs, Route::HelloWorld]);
    assert(rs.drop_last().drop_last() =~= seq![Route::ApiDocs]);
    assert(rs.drop_last().drop_last().drop_last() =~= Seq::<Route>::empty());
    assert(operations_of(route_list()) =~= service_operations());
}

impl Route {
    /// The operation id this route is documented under.
    pub fn operation_id(&self) -> (r: &'static str)
        ensures
            r@ == operation_id_of(*self),
    {
        match self {
            Route::ApiDocs => "openapi",
            Route::HelloWorld => "helloworld",
            Route::ComplexData => "complexdata",
        }
    }

    /// The description of this route's successful response.
    pub fn response_description(&self) -> (r: &'static str)
        ensures
            r@ == response_description_of(*self),
    {
        match self {
            Route::ApiDocs => "JSON file",
            Route::HelloWorld => "Hello world!",
            Route::ComplexData => "Complex data type",
        }
    }

    /// The summary line of this route's documentation, where it has one.
    pub fn summary(&self) -> (r: Option<&'static str>)
        ensures
            str_option_view(r) == summary_of(*self),
    {
        match self {
            Route::ApiDocs => Some("Return JSON version of an OpenAPI schema"),
            _ => None,
        }
    }
}

/// The schema of a scalar.
fn scalar_schema(k: Scalar) -> (r: RefOr<Schema>)
    ensures
        schema_view(r) == plain_schema(scalar_kind(k)),
        !schema_has_extensions(r),
{
    match k {
        Scalar::Text => string_schema(),
        Scalar::Boolean => boolean_schema(),
        Scalar::Int32 => int32_schema(),
    }
}

/// The schema of a field of a record.
fn field_schema(t: FieldType) -> (r: RefOr<Schema>)
    ensures
        schema_view(r) == plain_schema(field_kind(t)),
        !schema_has_extensions(r),
{
    match t {
        FieldType::Scalar(k) => scalar_schema(k),
        FieldType::ListOf(rec) => array_of_refs(rec.name()),
    }
}

/// The schema of a body shape.
fn body_schema(shape: BodyShape) -> (r: RefOr<Schema>)
    ensures
        schema_view(r) == plain_schema(body_kind(shape)),
        !schema_has_extensions(r),
{
    match shape {
        BodyShape::Text => scalar_schema(Scalar::Text),
        BodyShape::ListOf(rec) => array_of_refs(rec.name()),
    }
}

/// The object schema of a record: each field a required property.
fn record_schema(rec: Record) -> (r: RefOr<Schema>)
    ensures
        schema_view(r) == record_view(rec),
        !schema_has_extensions(r),
{
    let fields = rec.fields();
    let ghost fs = record_fields(rec);
    let mut object = object_builder();
    let mut i: usize = 0;
    proof {
        assert(fs.subrange(0, 0) =~= Seq::<(Seq<char>, FieldType)>::empty());
        assert(names_of(fs.subrange(0, 0)) =~= Seq::<Seq<char>>::empty());
    }
    while i < fields.len()
        invariant
            fs == record_fields(rec),
            fields@.len() == fs.len(),
            forall|j: int|
                0 <= j < fields@.len() ==> (#[trigger] fields@[j]).0@ == fs[j].0
                    && fields@[j].1 == fs[j].1,
            0 <= i <= fields.len(),
            !object_builder_has_extensions(object),
            object_builder_view(object) == (
                object_kind(),
                properties_of(fs.subrange(0, i as int)),
                names_of(fs.subrange(0, i as int)),
            ),
        decreases fields.len() - i,
    {
        let (name, t) = fields[i];
        object = with_required_property(object, name, field_schema(t));
        proof {
            let next = fs.subrange(0, i + 1);
            assert(next.drop_last() =~= fs.subrange(0, i as int));
            assert(next.last() == fs[i as int]);
            assert(names_of(next) =~= names_of(fs.subrange(0, i as int)).push(name@));
        }
        i = i + 1;
    }
    proof {
        assert(fs.subrange(0, i as int) =~= fs);
    }
    finish_object(object)
}

/// The component schemas: every record, under its name.
fn record_components() -> (r: Components)
    ensures
        components_view(r) == service_components(),
        !components_has_extensions(r),
{
    let components = components_builder();
    let components = with_schema(
        components,
        Record::ComplexData.name(),
        record_schema(Record::ComplexData),
    );
    let components = with_schema(components, Record::MyStruct.name(), record_schema(Record::MyStruct));
    finish_components(components)
}

/// The documented operation of one route.
fn route_operation(route: Route) -> (r: Operation)
    ensures
        operation_view(r) == route_operation_view(route),
        !operation_has_extensions(r),
{
    let response = response_with_content(
        route.response_description(),
        route.content_type().header_value(),
        body_schema(route.body_shape()),
    );
    operation_with_response(route.operation_id(), route.summary(), "200", response)
}

/// The title the document is published under.
pub open spec fn document_title() -> Seq<char> {
    "hello_api"@
}

/// The version the document is published under.
pub open spec fn document_version() -> Seq<char> {
    "0.1.0"@
}

/// The API document: title, version, the documented paths and the schemas
/// of the records that bodies refer to.
pub struct ApiDocument {
    pub title: String,
    pub version: String,
    pub paths: Paths,
    pub components: Components,
}

/// Why the document could not be serialised.
#[derive(PartialEq, Eq, Structural, Clone, Copy, Debug)]
pub enum DocError {
    Serialization,
}

/// `d` is the document of this service.
pub open spec fn is_service_document(d: ApiDocument) -> bool {
    &&& d.title@ == document_title()
    &&& d.version@ == document_version()
    &&& documented_operations(d.paths) == service_operations()
    &&& components_view(d.components) == service_components()
    &&& !paths_has_extensions(d.paths)
    &&& !components_has_extensions(d.components)
}

/// The JSON text of a document whose paths and components set no
/// extensions.
pub open spec fn text_of(d: ApiDocument) -> Seq<char> {
    document_text(assembled_document(d.title@, d.version@, d.paths, d.components))
}

/// The path list documenting every route of the table, and only those: each
/// path with GET alone and its route's operation.
pub fn documented_routes() -> (r: Paths)
    ensures
        documented_operations(r) == service_operations(),
        documented_paths(r) == registered_paths(),
        !paths_has_extensions(r),
{
    let table = route_table();
    let mut paths = Paths::new();
    let mut i: usize = 0;
    proof {
        assert(table@.subrange(0, 0) =~= Seq::<Route>::empty());
    }
    while i < table.len()
        invariant
            table@ == route_list(),
            0 <= i <= table.len(),
            documented_operations(paths) == operations_of(table@.subrange(0, i as int)),
            !paths_has_extensions(paths),
        decreases table.len() - i,
    {
        let route = table[i];
        add_get_operation(&mut paths, route.path(), route_operation(route));
        proof {
            let next = table@.subrange(0, i + 1);
            assert(next.drop_last() =~= table@.subrange(0, i as int));
            assert(next.last() == route);
        }
        i = i + 1;
    }
    proof {
        assert(table@.subrange(0, i as int) =~= table@);
        lemma_operations_of_table();
        assert forall|p: Seq<char>| documented_paths(paths).contains(p) <==> registered_paths().contains(p) by {
            lemma_routed_iff_registered(p);
        }
        assert(documented_paths(paths) =~= registered_paths());
    }
    paths
}

/// The API document of this service: every registered route is documented
/// with its operation, and every record with its schema.
pub fn openapi() -> (r: ApiDocument)
    ensures
        is_service_document(r),
        documented_paths(r.paths) == registered_paths(),
{
    ApiDocument {
        title: "hello_api".to_owned(),
        version: "0.1.0".to_owned(),
        paths: documented_routes(),
        components: record_components(),
    }
}

/// A document built by `openapi` lists a path exactly when requests on that
/// path are routed: the documented and the served surface are the same.
pub proof fn lemma_documented_iff_routed(doc: ApiDocument, p: Seq<char>)
    requires
        is_service_document(doc),
    ensures
        documented_paths(doc.paths).contains(p) <==> route_for(p) is Some,
        documented_paths(doc.paths).contains(p) <==> registered_paths().contains(p),
{
    lemma_routed_iff_registered(p);
}

/// Every documented path has a GET operation and no other, with a single
/// 200 response whose content type is the one served on the route and whose
/// schema is the route's body shape; its description is the route's.
pub proof fn lemma_get_only_with_ok(doc: ApiDocument, p: Seq<char>)
    requires
        is_service_document(doc),
        documented_paths(doc.paths).contains(p),
    ensures
        route_for(p) is Some,
        documented_operations(doc.paths)[p].dom() == set!["get"@],
        documented_operations(doc.paths)[p]["get"@] == route_operation_view(route_for(p)->0),
        documented_operations(doc.paths)[p]["get"@].2.dom() == set![ok_status_key()],
        documented_operations(doc.paths)[p]["get"@].2[ok_status_key()].1.dom() == set![
            content_type_text(route_content_type(route_for(p)->0)),
        ],
{
    let o = documented_operations(doc.paths)[p];
    assert(o.dom() =~= set!["get"@]);
    assert(o["get"@].2.dom() =~= set![ok_status_key()]);
    assert(o["get"@].2[ok_status_key()].1.dom() =~= set![
        content_type_text(route_content_type(route_for(p)->0)),
    ]);
}

/// Every reference in the document resolves: each record that a body or a
/// field refers to has a component schema under that name.
pub proof fn lemma_references_resolve(doc: ApiDocument, route: Route, rec: Record, i: int)
    requires
        is_service_document(doc),
        0 <= i < record_fields(rec).len(),
    ensures
        components_view(doc.components).contains_key(record_name(rec)),
        components_view(doc.components)[record_name(rec)] == record_view(rec),
        route_body_shape(route) matches BodyShape::ListOf(r) ==> components_view(
            doc.components,
        ).contains_key(record_name(r)),
        record_fields(rec)[i].1 matches FieldType::ListOf(r) ==> components_view(
            doc.components,
        ).contains_key(record_name(r)),
{
    reveal_strlit("ComplexData");
    reveal_strlit("MyStruct");
    assert(record_name(Record::ComplexData) != record_name(Record::MyStruct));
}

/// The document does not depend on when or how often it is built, nor on
/// the startup settings: any two service documents describe the same title,
/// version, operations and component schemas.
pub proof fn lemma_document_determined(d1: ApiDocument, d2: ApiDocument)
    requires
        is_service_document(d1),
        is_service_document(d2),
    ensures
        d1.title@ == d2.title@,
        d1.version@ == d2.version@,
        documented_operations(d1.paths) == documented_operations(d2.paths),
        components_view(d1.components) == components_view(d2.components),
{
}

impl ApiDocument {
    /// The document as JSON text.
    pub fn to_json(&self) -> (r: Result<String, DocError>)
        ensures
            r is Ok,
            r matches Ok(t) ==> (!paths_has_extensions(self.paths) && !components_has_extensions(
                self.components,
            ) ==> t@ == text_of(*self)),
    {
        let doc = assemble_document(
            self.title.as_str(),
            self.version.as_str(),
            &self.paths,
            &self.components,
        );
        match document_to_json(&doc) {
            Ok(text) => Ok(text),
            Err(_) => Err(DocError::Serialization),
        }
    }
}

/// The document of this service as JSON text, ready to be served.
pub fn openapi_json() -> (r: Result<String, DocError>)
    ensures
        r is Ok,
        r matches Ok(t) ==> exists|d: ApiDocument| is_service_document(d) && t@ == text_of(d),
{
    let d = openapi();
    let r = d.to_json();
    proof {
        if r is Ok {
            assert(is_service_document(d) && r->Ok_0@ == text_of(d));
        }
    }
    r
}

} // verus!
