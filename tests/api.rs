use backend::config::ServerConfig;
use backend::decimal::{parse_i32, render_decimal};
use backend::docs::{api_description, schema_table, ValueFormat};
use backend::handlers::{
    create_user, fetch_user, get_user, landing_page, upload_file, CreateUserRequest, RequestError,
    UploadFileRequest, UploadedFile,
};
use backend::multipart::{decode_upload, DecodeError, Part, UploadField};
use backend::routes::{route_table, Endpoint, Method};

fn part(name: Option<&str>, file_name: Option<&str>, data: &[u8]) -> Part {
    Part {
        name: name.map(|n| n.to_string()),
        file_name: file_name.map(|n| n.to_string()),
        content_type: None,
        data: data.to_vec(),
    }
}

#[test]
fn get_user_echoes_id_for_any_integer() {
    for n in [0i32, 1, 42, -7, i32::MAX, i32::MIN] {
        let user = fetch_user(&n.to_string()).unwrap();
        assert_eq!(user.id, n);
        assert_eq!(user.username, "rust_dev test");
    }
}

#[test]
fn get_user_builds_placeholder() {
    let user = get_user(5);
    assert_eq!(user.id, 5);
    assert_eq!(user.username, "rust_dev test");
}

#[test]
fn get_user_rejects_non_integer() {
    let err = fetch_user("abc").err().unwrap();
    assert_eq!(err, RequestError::InvalidUserId);
    assert_eq!(err.status(), 400);
}

#[test]
fn parse_accepts_signs_and_bounds() {
    assert_eq!(parse_i32("+5"), Some(5));
    assert_eq!(parse_i32("-0"), Some(0));
    assert_eq!(parse_i32("007"), Some(7));
    assert_eq!(parse_i32("2147483647"), Some(i32::MAX));
    assert_eq!(parse_i32("-2147483648"), Some(i32::MIN));
}

#[test]
fn parse_rejects_malformed_and_out_of_range() {
    assert_eq!(parse_i32(""), None);
    assert_eq!(parse_i32("-"), None);
    assert_eq!(parse_i32("+"), None);
    assert_eq!(parse_i32("1a"), None);
    assert_eq!(parse_i32(" 1"), None);
    assert_eq!(parse_i32("--1"), None);
    assert_eq!(parse_i32("2147483648"), None);
    assert_eq!(parse_i32("-2147483649"), None);
    assert_eq!(parse_i32("99999999999999999999"), None);
    assert_eq!(parse_i32("\u{663}"), None);
}

#[test]
fn render_decimal_values() {
    assert_eq!(render_decimal(0), "0");
    assert_eq!(render_decimal(9), "9");
    assert_eq!(render_decimal(10), "10");
    assert_eq!(render_decimal(3000), "3000");
    assert_eq!(render_decimal(u32::MAX), "4294967295");
}

#[test]
fn create_user_answers_fixed_text() {
    let payload = CreateUserRequest { username: "a".to_string(), email: "b@c.com".to_string() };
    let reply = create_user(&payload);
    assert_eq!(reply.status, 201);
    assert_eq!(reply.body, "User created");
    assert_eq!(reply.log_line, "Creating user: a, with email: b@c.com");
}

#[test]
fn create_user_twice_has_no_conflict() {
    let payload = CreateUserRequest { username: "a".to_string(), email: "b@c.com".to_string() };
    let first = create_user(&payload);
    let second = create_user(&payload);
    assert_eq!(first.status, second.status);
    assert_eq!(first.body, second.body);
}

#[test]
fn upload_echoes_file_name_and_description() {
    let parts = vec![
        part(Some("file"), Some("test.txt"), b"contents"),
        part(Some("description"), None, b"hello"),
    ];
    let request = decode_upload(&parts).ok().unwrap();
    assert_eq!(request.file.contents, b"contents".to_vec());
    let reply = upload_file(&request);
    assert_eq!(reply.status, 200);
    assert!(reply.body.contains("test.txt"));
    assert!(reply.body.contains("hello"));
    assert_eq!(reply.body, "Uploaded test.txt with description: hello");
    assert_eq!(reply.log_line, "Uploaded test.txt with description: hello");
}

#[test]
fn upload_without_file_field_is_rejected() {
    let parts = vec![part(Some("description"), None, b"hello")];
    let err = decode_upload(&parts).err().unwrap();
    assert_eq!(err, DecodeError::MissingField(UploadField::File));
    assert_eq!(err.status(), 400);
}

#[test]
fn upload_without_description_is_rejected() {
    let parts = vec![part(Some("file"), Some("a.bin"), b"x")];
    assert_eq!(
        decode_upload(&parts).err().unwrap(),
        DecodeError::MissingField(UploadField::Description)
    );
}

#[test]
fn upload_description_must_be_utf8() {
    let parts = vec![
        part(Some("file"), Some("a.bin"), b"x"),
        part(Some("description"), None, &[0xff, 0xfe]),
    ];
    assert_eq!(
        decode_upload(&parts).err().unwrap(),
        DecodeError::WrongFieldType(UploadField::Description)
    );
}

#[test]
fn upload_decoder_skips_unknown_and_nameless_parts() {
    let parts = vec![
        part(None, None, b"ignored"),
        part(Some(""), None, b"ignored"),
        part(Some("other"), Some("o.txt"), b"ignored"),
        part(Some("file"), Some("first.txt"), b"1"),
        part(Some("description"), None, b"old"),
        part(Some("file"), Some("second.txt"), b"2"),
        part(Some("description"), None, "new \u{e9}".as_bytes()),
    ];
    let request = decode_upload(&parts).ok().unwrap();
    assert_eq!(request.file.file_name.as_deref(), Some("second.txt"));
    assert_eq!(request.file.contents, b"2".to_vec());
    assert_eq!(request.description, "new \u{e9}");
}

#[test]
fn upload_without_file_name_is_internal_error() {
    let request = UploadFileRequest {
        file: UploadedFile { file_name: None, content_type: None, contents: vec![] },
        description: "hello".to_string(),
    };
    let reply = upload_file(&request);
    assert_eq!(reply.status, 500);
    assert_eq!(reply.body, "");
    assert_eq!(reply.log_line, "Uploaded Unknown file_name with description: hello");
}

#[test]
fn api_description_lists_exactly_the_api_routes() {
    let doc = api_description();
    let listed: Vec<(Method, String, String)> = doc
        .operations
        .iter()
        .map(|op| (op.method, op.path.clone(), op.operation_id.clone()))
        .collect();
    assert_eq!(
        listed,
        vec![
            (Method::Get, "/user/{id}".to_string(), "get_user".to_string()),
            (Method::Post, "/user".to_string(), "create_user".to_string()),
            (Method::Post, "/upload".to_string(), "upload_file".to_string()),
        ]
    );
    let names: Vec<String> = doc.schemas.iter().map(|s| s.name.clone()).collect();
    assert_eq!(names, vec!["User", "CreateUserRequest", "UploadFileRequest"]);
    let get = &doc.operations[0];
    assert_eq!(get.parameters[0].name, "id");
    assert_eq!(get.parameters[0].format, ValueFormat::Int32);
    let statuses: Vec<u16> = get.responses.iter().map(|r| r.status).collect();
    assert_eq!(statuses, vec![200, 404]);
    assert_eq!(doc.operations[1].request_body.as_ref().unwrap().schema, "CreateUserRequest");
    assert_eq!(doc.operations[2].request_body.as_ref().unwrap().content_type, "multipart/form-data");
}

#[test]
fn upload_schema_marks_file_binary() {
    let schemas = schema_table();
    let upload = &schemas[2];
    assert_eq!(upload.fields[0].name, "file");
    assert_eq!(upload.fields[0].format, ValueFormat::Binary);
    assert!(upload.fields.iter().all(|f| f.required));
}

#[test]
fn route_table_serves_every_endpoint_once() {
    let routes = route_table();
    let listed: Vec<(Method, String, Endpoint)> =
        routes.iter().map(|r| (r.method, r.path.clone(), r.endpoint)).collect();
    assert_eq!(
        listed,
        vec![
            (Method::Get, "/".to_string(), Endpoint::LandingPage),
            (Method::Get, "/user/{id}".to_string(), Endpoint::GetUser),
            (Method::Post, "/user".to_string(), Endpoint::CreateUser),
            (Method::Post, "/upload".to_string(), Endpoint::UploadFile),
            (Method::Get, "/swagger-ui".to_string(), Endpoint::SwaggerUi),
            (Method::Get, "/api-docs/openapi.json".to_string(), Endpoint::OpenApiJson),
        ]
    );
}

#[test]
fn repeated_gets_give_identical_answers() {
    assert_eq!(landing_page(), landing_page());
    assert_eq!(landing_page(), "<html><body><h1>Check Source test</h1></body></html>");
    let a = fetch_user("17").unwrap();
    let b = fetch_user("17").unwrap();
    assert_eq!((a.id, a.username), (b.id, b.username));
    let first: Vec<String> = api_description().operations.iter().map(|o| o.path.clone()).collect();
    let second: Vec<String> = api_description().operations.iter().map(|o| o.path.clone()).collect();
    assert_eq!(first, second);
}

#[test]
fn bind_address_is_rendered() {
    assert_eq!(ServerConfig::standard().bind_address(), "0.0.0.0:3000");
    let local = ServerConfig { host: [127, 0, 0, 1], port: 4000 };
    assert_eq!(local.bind_address(), "127.0.0.1:4000");
}
