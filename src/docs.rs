//! The API description: operations read from the route table and the schema
//! of each data shape, the one source for the served documentation.
use vstd::prelude::*;
use crate::routes::{
    Endpoint, Method, api_endpoints, endpoint_method, endpoint_path, endpoint_path_text, is_api,
    route_is, route_table, served_endpoints,
};

verus! {

/// How a value is written on the wire.
#[derive(PartialEq, Eq, Structural, Clone, Copy, Debug)]
pub enum ValueFormat {
    Int32,
    Text,
    Binary,
}

pub struct SchemaField {
    pub name: String,
    pub format: ValueFormat,
    pub required: bool,
}

pub struct Schema {
    pub name: String,
    pub fields: Vec<SchemaField>,
}

/// A parameter taken from a path segment.
pub struct PathParameter {
    pub name: String,
    pub description: String,
    pub format: ValueFormat,
}

pub struct RequestBodyDoc {
    pub content_type: String,
    pub schema: String,
}

pub struct ResponseDoc {
    pub status: u16,
    pub description: String,
    pub schema: Option<String>,
}

pub struct Operation {
    pub method: Method,
    pub path: String,
    pub operation_id: String,
    pub parameters: Vec<PathParameter>,
    pub request_body: Option<RequestBodyDoc>,
    pub responses: Vec<ResponseDoc>,
}

pub struct ApiDescription {
    pub operations: Vec<Operation>,
    pub schemas: Vec<Schema>,
}

pub open spec fn schema_names() -> Seq<Seq<char>> {
    seq!["User"@, "CreateUserRequest"@, "UploadFileRequest"@]
}

pub open spec fn operation_id_spec(e: Endpoint) -> Seq<char> {
    match e {
        Endpoint::GetUser => "get_user"@,
        Endpoint::CreateUser => "create_user"@,
        _ => "upload_file"@,
    }
}

/// The content type and schema that the request body of an endpoint is
/// read with.
pub open spec fn body_spec(e: Endpoint) -> Option<(Seq<char>, Seq<char>)> {
    match e {
        Endpoint::CreateUser => Some(("application/json"@, "CreateUserRequest"@)),
        Endpoint::UploadFile => Some(("multipart/form-data"@, "UploadFileRequest"@)),
        _ => None,
    }
}

/// Status, description and body schema of each documented response.
pub open spec fn responses_spec(e: Endpoint) -> Seq<(u16, Seq<char>, Option<Seq<char>>)> {
    match e {
        Endpoint::GetUser => seq![
            (200u16, "User found"@, Some("User"@)),
            (404u16, "User not found"@, None),
        ],
        Endpoint::CreateUser => seq![(201u16, ""@, Some("User"@))],
        _ => seq![(200u16, "File uploaded"@, None)],
    }
}

/// Name, description and format of each path parameter.
pub open spec fn params_spec(e: Endpoint) -> Seq<(Seq<char>, Seq<char>, ValueFormat)> {
    match e {
        Endpoint::GetUser => seq![("id"@, "User database id"@, ValueFormat::Int32)],
        _ => seq![],
    }
}

/// Each schema: its name, and the name, format and requiredness of each field.
pub open spec fn schemas_spec() -> Seq<(Seq<char>, Seq<(Seq<char>, ValueFormat, bool)>)> {
    seq![
        ("User"@, seq![("id"@, ValueFormat::Int32, true), ("username"@, ValueFormat::Text, true)]),
        ("CreateUserRequest"@, seq![
            ("username"@, ValueFormat::Text, true),
            ("email"@, ValueFormat::Text, true),
        ]),
        ("UploadFileRequest"@, seq![
            ("file"@, ValueFormat::Binary, true),
            ("description"@, ValueFormat::Text, true),
        ]),
    ]
}

pub open spec fn schema_view(s: Schema) -> (Seq<char>, Seq<(Seq<char>, ValueFormat, bool)>) {
    (s.name@, s.fields@.map_values(|f: SchemaField| (f.name@, f.format, f.required)))
}

pub open spec fn body_view(op: Operation) -> Option<(Seq<char>, Seq<char>)> {
    match op.request_body {
        Some(b) => Some((b.content_type@, b.schema@)),
        None => None,
    }
}

pub open spec fn response_view(r: ResponseDoc) -> (u16, Seq<char>, Option<Seq<char>>) {
    (
        r.status,
        r.description@,
        match r.schema {
            Some(s) => Some(s@),
            None => None,
        },
    )
}

/// The operation documents endpoint `e`: its route, name, path parameters,
/// request body and responses.
pub open spec fn describes(op: Operation, e: Endpoint) -> bool {
    &&& op.method == endpoint_method(e)
    &&& op.path@ == endpoint_path(e)
    &&& op.operation_id@ == operation_id_spec(e)
    &&& op.parameters@.map_values(|p: PathParameter| (p.name@, p.description@, p.format))
        == params_spec(e)
    &&& body_view(op) == body_spec(e)
    &&& op.responses@.map_values(|r: ResponseDoc| response_view(r)) == responses_spec(e)
}

fn text(s: &str) -> (r: String)
    ensures
        r@ == s@,
{
    String::from_str(s)
}

fn field(name: &str, format: ValueFormat) -> (r: SchemaField)
    ensures
        r.name@ == name@,
        r.format == format,
        r.required,
{
    SchemaField { name: text(name), format, required: true }
}

fn response(status: u16, description: &str, schema: Option<&str>) -> (r: ResponseDoc)
    ensures
        response_view(r) == (
            status,
            description@,
            match schema {
                Some(s) => Some(s@),
                None => None::<Seq<char>>,
            },
        ),
{
    let schema = match schema {
        Some(s) => Some(text(s)),
        None => None,
    };
    ResponseDoc { status, description: text(description), schema }
}

/// The schema of each data shape.
pub fn schema_table() -> (r: Vec<Schema>)
    ensures
        r@.map_values(|s: Schema| schema_view(s)) == schemas_spec(),
{
    let mut user: Vec<SchemaField> = Vec::new();
    user.push(field("id", ValueFormat::Int32));
    user.push(field("username", ValueFormat::Text));
    let mut create: Vec<SchemaField> = Vec::new();
    create.push(field("username", ValueFormat::Text));
    create.push(field("email", ValueFormat::Text));
    let mut upload: Vec<SchemaField> = Vec::new();
    upload.push(field("file", ValueFormat::Binary));
    upload.push(field("description", ValueFormat::Text));
    let mut r: Vec<Schema> = Vec::new();
    r.push(Schema { name: text("User"), fields: user });
    r.push(Schema { name: text("CreateUserRequest"), fields: create });
    r.push(Schema { name: text("UploadFileRequest"), fields: upload });
    proof {
        assert(user@.map_values(|f: SchemaField| (f.name@, f.format, f.required)) =~= schemas_spec()[0].1);
        assert(create@.map_values(|f: SchemaField| (f.name@, f.format, f.required)) =~= schemas_spec()[1].1);
        assert(upload@.map_values(|f: SchemaField| (f.name@, f.format, f.required)) =~= schemas_spec()[2].1);
        assert(r@.map_values(|s: Schema| schema_view(s)) =~= schemas_spec());
    }
    r
}

/// The documentation of one API endpoint.
pub fn operation_doc(e: Endpoint) -> (r: Operation)
    requires
        api_endpoints().contains(e),
    ensures
        describes(r, e),
{
    let mut parameters: Vec<PathParameter> = Vec::new();
    let mut responses: Vec<ResponseDoc> = Vec::new();
    let (method, operation_id, request_body) = match e {
        Endpoint::GetUser => {
            parameters.push(
                PathParameter {
                    name: text("id"),
                    description: text("User database id"),
                    format: ValueFormat::Int32,
                },
            );
            responses.push(response(200, "User found", Some("User")));
            responses.push(response(404, "User not found", None));
            (Method::Get, text("get_user"), None)
        },
        Endpoint::CreateUser => {
            responses.push(response(201, "", Some("User")));
            (
                Method::Post,
                text("create_user"),
                Some(
                    RequestBodyDoc {
                        content_type: text("application/json"),
                        schema: text("CreateUserRequest"),
                    },
                ),
            )
        },
        _ => {
            responses.push(response(200, "File uploaded", None));
            (
                Method::Post,
                text("upload_file"),
                Some(
                    RequestBodyDoc {
                        content_type: text("multipart/form-data"),
                        schema: text("UploadFileRequest"),
                    },
                ),
            )
        },
    };
    proof {
        assert(parameters@.map_values(|p: PathParameter| (p.name@, p.description@, p.format))
            =~= params_spec(e));
        assert(responses@.map_values(|r: ResponseDoc| response_view(r)) =~= responses_spec(e));
    }
    Operation {
        method,
        path: text(endpoint_path_text(e)),
        operation_id,
        parameters,
        request_body,
        responses,
    }
}

/// How many API endpoints stand among the first `i` served endpoints.
pub open spec fn api_count_before(i: int) -> int {
    if i <= 1 {
        0
    } else if i <= 4 {
        i - 1
    } else {
        3
    }
}

fn is_api_endpoint(e: Endpoint) -> (r: bool)
    ensures
        r == is_api(e),
{
    match e {
        Endpoint::GetUser | Endpoint::CreateUser | Endpoint::UploadFile => true,
        _ => false,
    }
}

/// The description served as the API document, read from the route table:
/// one operation for each API endpoint, in route order, and every schema.
pub fn api_description() -> (r: ApiDescription)
    ensures
        r.operations@.len() == api_endpoints().len(),
        forall|i: int|
            0 <= i < r.operations@.len() ==> describes(
                #[trigger] r.operations@[i],
                api_endpoints()[i],
            ),
        r.schemas@.map_values(|s: Schema| schema_view(s)) == schemas_spec(),
{
    let routes = route_table();
    let mut operations: Vec<Operation> = Vec::new();
    let mut i: usize = 0;
    while i < routes.len()
        invariant
            i <= routes@.len(),
            routes@.len() == served_endpoints().len(),
            forall|k: int| 0 <= k < routes@.len() ==> route_is(#[trigger] routes@[k], served_endpoints()[k]),
            operations@.len() == api_count_before(i as int),
            forall|j: int|
                0 <= j < operations@.len() ==> describes(
                    #[trigger] operations@[j],
                    api_endpoints()[j],
                ),
        decreases routes@.len() - i,
    {
        let e = routes[i].endpoint;
        proof {
            assert(route_is(routes@[i as int], served_endpoints()[i as int]));
        }
        if is_api_endpoint(e) {
            proof {
                assert(api_endpoints()[operations@.len() as int] == e);
                assert(api_endpoints().contains(e));
            }
            operations.push(operation_doc(e));
        }
        i = i + 1;
    }
    ApiDescription { operations, schemas: schema_table() }
}

/// Every schema that an API operation names, for its request body or for a
/// response, is one of the described schemas.
pub proof fn lemma_schemas_declared(e: Endpoint)
    requires
        api_endpoints().contains(e),
    ensures
        schemas_spec().map_values(|s: (Seq<char>, Seq<(Seq<char>, ValueFormat, bool)>)| s.0)
            == schema_names(),
        body_spec(e) matches Some(b) ==> schema_names().contains(b.1),
        forall|i: int|
            0 <= i < responses_spec(e).len() ==> ((#[trigger] responses_spec(e)[i]).2 matches Some(n)
                ==> schema_names().contains(n)),
{
    assert(schemas_spec().map_values(|s: (Seq<char>, Seq<(Seq<char>, ValueFormat, bool)>)| s.0)
        =~= schema_names());
    assert(schema_names()[0] == "User"@);
    assert(schema_names()[1] == "CreateUserRequest"@);
    assert(schema_names()[2] == "UploadFileRequest"@);
}

} // verus!
