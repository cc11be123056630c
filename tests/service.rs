use hello_api::apidoc::{openapi, openapi_json, documented_routes, DocError};
use hello_api::config::{first_argument, listen_address, str_equal, StartupConfig};
use hello_api::reply::{respond, ContentType, Method, STATUS_METHOD_NOT_ALLOWED, STATUS_NOT_FOUND, STATUS_OK};
use hello_api::routes::{complexdata, helloworld, resolve, route_table, Route};

const HELLO: &str = "{\"message\": \"Hello world! ABCDEFGHIJKLMNOPQRSTUVWXYZ.\"}";
const COMPLEX: &str = "[{\"data\":[{\"my_string\":\"my complex data\",\"my_bool\":true,\"my_int\":144}]}]";

fn args(list: &[&str]) -> Vec<String> {
    list.iter().map(|s| s.to_string()).collect()
}

fn doc_json() -> String {
    openapi_json().expect("the document serialises")
}

#[test]
fn helloworld_answers_greeting() {
    let doc = doc_json();
    let r = respond(Method::Get, "/helloworld", &doc);
    assert_eq!(r.status, 200);
    assert_eq!(r.body, HELLO);
    assert_eq!(r.content_type, Some(ContentType::PlainText));
    assert_eq!(helloworld(), HELLO);
}

#[test]
fn complexdata_answers_literal_payload() {
    let doc = doc_json();
    let r = respond(Method::Get, "/complexdata", &doc);
    assert_eq!(r.status, STATUS_OK);
    assert_eq!(r.body, COMPLEX);
    assert_eq!(complexdata(), COMPLEX);
}

#[test]
fn complexdata_payload_is_valid_json() {
    let v: serde_json::Value = serde_json::from_str(&complexdata()).unwrap();
    let rec = &v[0]["data"][0];
    assert_eq!(rec["my_string"], serde_json::Value::from("my complex data"));
    assert_eq!(rec["my_bool"], serde_json::Value::from(true));
    assert_eq!(rec["my_int"], serde_json::Value::from(144));
}

#[test]
fn api_docs_route_serves_document() {
    let doc = doc_json();
    let r = respond(Method::Get, "/api-docs/openapi.json", &doc);
    assert_eq!(r.status, 200);
    assert_eq!(r.content_type, Some(ContentType::Json));
    assert_eq!(r.body, doc);
}

#[test]
fn gzip_flag_enables_compression() {
    let cfg = StartupConfig::from_args(&args(&["server", "gzip"]));
    assert!(cfg.compression_enabled);
    assert_eq!(cfg.mode_message(), "Using compressed responses!");
}

#[test]
fn no_flag_leaves_compression_off() {
    let cfg = StartupConfig::from_args(&args(&["server"]));
    assert!(!cfg.compression_enabled);
    assert_eq!(cfg.mode_message(), "Not using compressed responses!");
}

#[test]
fn other_flag_leaves_compression_off() {
    for flag in ["GZIP", "gzip2", "brotli", "", " gzip"] {
        let cfg = StartupConfig::from_args(&args(&["server", flag]));
        assert!(!cfg.compression_enabled, "flag {:?}", flag);
        assert_eq!(cfg.mode_message(), "Not using compressed responses!");
    }
}

#[test]
fn only_first_argument_counts() {
    assert!(!StartupConfig::from_args(&args(&["server", "x", "gzip"])).compression_enabled);
    assert!(StartupConfig::from_args(&args(&["server", "gzip", "x"])).compression_enabled);
    assert!(!StartupConfig::from_args(&args(&[])).compression_enabled);
}

#[test]
fn first_argument_or_empty() {
    assert_eq!(first_argument(&args(&["server", "gzip"])), "gzip");
    assert_eq!(first_argument(&args(&["server"])), "");
    assert_eq!(first_argument(&args(&[])), "");
}

#[test]
fn flag_from_str() {
    assert!(StartupConfig::from_flag("gzip").compression_enabled);
    assert!(!StartupConfig::from_flag("").compression_enabled);
    assert!(str_equal("abc", "abc"));
    assert!(!str_equal("abc", "abd"));
}

#[test]
fn listens_on_fixed_address() {
    assert_eq!(listen_address(), ([127, 0, 0, 1], 55555));
}

#[test]
fn documented_paths_match_route_table() {
    let v: serde_json::Value = serde_json::from_str(&doc_json()).unwrap();
    let mut documented: Vec<String> = v["paths"].as_object().unwrap().keys().cloned().collect();
    let mut registered: Vec<String> = route_table().iter().map(|r| r.path().to_string()).collect();
    documented.sort();
    registered.sort();
    assert_eq!(documented, registered);
    assert_eq!(
        registered,
        vec!["/api-docs/openapi.json", "/complexdata", "/helloworld"]
    );
    for r in route_table() {
        assert!(v["paths"][r.path()]["get"].is_object(), "{}", r.path());
    }
}

#[test]
fn document_carries_operations() {
    let v: serde_json::Value = serde_json::from_str(&doc_json()).unwrap();
    assert_eq!(v["info"]["title"], serde_json::Value::from("hello_api"));
    assert_eq!(v["info"]["version"], serde_json::Value::from("0.1.0"));
    let get = &v["paths"]["/helloworld"]["get"];
    assert_eq!(get["operationId"], serde_json::Value::from("helloworld"));
    assert_eq!(get["responses"]["200"]["description"], serde_json::Value::from("Hello world!"));
    assert!(get["responses"]["200"]["content"]["text/plain; charset=utf-8"].is_object());
    let docs = &v["paths"]["/api-docs/openapi.json"]["get"];
    assert_eq!(docs["summary"], serde_json::Value::from("Return JSON version of an OpenAPI schema"));
    assert!(docs["responses"]["200"]["content"]["application/json"].is_object());
    let complex = &v["paths"]["/complexdata"]["get"];
    assert_eq!(complex["responses"]["200"]["description"], serde_json::Value::from("Complex data type"));
}

#[test]
fn document_model_lists_routes() {
    let d = openapi();
    assert_eq!(d.title, "hello_api");
    assert_eq!(d.version, "0.1.0");
    for r in route_table() {
        assert!(d.paths.get_path_item(r.path()).is_some());
        assert!(documented_routes().get_path_item(r.path()).is_some());
    }
    assert!(d.paths.get_path_item("/nonexistent").is_none());
    assert_eq!(d.paths.paths.len(), 3);
    assert!(d.to_json().is_ok());
    assert_eq!(openapi_json().map(|t| t.len() > 0), Ok::<bool, DocError>(true));
}

#[test]
fn unregistered_path_is_not_found() {
    let doc = doc_json();
    for path in ["/nonexistent", "/", "", "/helloworld/", "/HelloWorld", "/api-docs", "/complexdata?x=1"] {
        let r = respond(Method::Get, path, &doc);
        assert_eq!(r.status, STATUS_NOT_FOUND, "{:?}", path);
        assert_eq!(r.status, 404);
        assert_eq!(r.content_type, None);
        assert_eq!(r.body, "");
        assert_eq!(resolve(path), None);
    }
}

#[test]
fn resolve_finds_each_route() {
    assert_eq!(resolve("/helloworld"), Some(Route::HelloWorld));
    assert_eq!(resolve("/complexdata"), Some(Route::ComplexData));
    assert_eq!(resolve("/api-docs/openapi.json"), Some(Route::ApiDocs));
    assert_eq!(route_table(), vec![Route::ApiDocs, Route::HelloWorld, Route::ComplexData]);
}

#[test]
fn repeated_requests_are_identical() {
    let doc = doc_json();
    assert_eq!(doc, doc_json());
    for path in ["/helloworld", "/complexdata", "/api-docs/openapi.json", "/nonexistent"] {
        let a = respond(Method::Get, path, &doc);
        let b = respond(Method::Get, path, &doc);
        assert_eq!(a.status, b.status);
        assert_eq!(a.content_type, b.content_type);
        assert_eq!(a.body, b.body);
    }
}

#[test]
fn other_methods_not_allowed_on_routes() {
    let doc = doc_json();
    for m in [Method::Post, Method::Put, Method::Delete, Method::Patch, Method::Options, Method::Trace, Method::Connect, Method::Other] {
        let r = respond(m, "/helloworld", &doc);
        assert_eq!(r.status, STATUS_METHOD_NOT_ALLOWED);
        assert_eq!(r.status, 405);
        assert_eq!(r.body, "");
        assert_eq!(respond(m, "/nonexistent", &doc).status, 404);
    }
}

#[test]
fn head_gets_headers_without_body() {
    let doc = doc_json();
    let r = respond(Method::Head, "/complexdata", &doc);
    assert_eq!(r.status, 200);
    assert_eq!(r.content_type, Some(ContentType::PlainText));
    assert_eq!(r.body, "");
}

#[test]
fn method_names_are_case_sensitive() {
    assert_eq!(Method::from_name("GET"), Method::Get);
    assert_eq!(Method::from_name("HEAD"), Method::Head);
    assert_eq!(Method::from_name("POST"), Method::Post);
    assert_eq!(Method::from_name("PUT"), Method::Put);
    assert_eq!(Method::from_name("DELETE"), Method::Delete);
    assert_eq!(Method::from_name("PATCH"), Method::Patch);
    assert_eq!(Method::from_name("OPTIONS"), Method::Options);
    assert_eq!(Method::from_name("TRACE"), Method::Trace);
    assert_eq!(Method::from_name("CONNECT"), Method::Connect);
    assert_eq!(Method::from_name("get"), Method::Other);
    assert_eq!(Method::from_name("PROPFIND"), Method::Other);
}

#[test]
fn content_type_header_values() {
    assert_eq!(ContentType::PlainText.header_value(), "text/plain; charset=utf-8");
    assert_eq!(ContentType::Json.header_value(), "application/json");
    assert_eq!(Route::ApiDocs.content_type(), ContentType::Json);
    assert_eq!(Route::HelloWorld.operation_id(), "helloworld");
    assert_eq!(Route::ComplexData.response_description(), "Complex data type");
    assert_eq!(Route::HelloWorld.summary(), None);
}

#[test]
fn document_describes_body_schemas() {
    let v: serde_json::Value = serde_json::from_str(&doc_json()).unwrap();
    let text = &v["paths"]["/helloworld"]["get"]["responses"]["200"]["content"]["text/plain; charset=utf-8"]["schema"];
    assert_eq!(text["type"], serde_json::Value::from("string"));
    let list = &v["paths"]["/complexdata"]["get"]["responses"]["200"]["content"]["text/plain; charset=utf-8"]["schema"];
    assert_eq!(list["type"], serde_json::Value::from("array"));
    assert_eq!(list["items"]["$ref"], serde_json::Value::from("#/components/schemas/ComplexData"));
    let schemas = &v["components"]["schemas"];
    let complex = &schemas["ComplexData"];
    assert_eq!(complex["type"], serde_json::Value::from("object"));
    assert_eq!(complex["required"], serde_json::Value::from(vec!["data"]));
    assert_eq!(complex["properties"]["data"]["items"]["$ref"], serde_json::Value::from("#/components/schemas/MyStruct"));
    let my = &schemas["MyStruct"];
    assert_eq!(my["required"], serde_json::Value::from(vec!["my_string", "my_bool", "my_int"]));
    assert_eq!(my["properties"]["my_string"]["type"], serde_json::Value::from("string"));
    assert_eq!(my["properties"]["my_bool"]["type"], serde_json::Value::from("boolean"));
    assert_eq!(my["properties"]["my_int"]["type"], serde_json::Value::from("integer"));
    assert_eq!(my["properties"]["my_int"]["format"], serde_json::Value::from("int32"));
}

#[test]
fn document_is_openapi_object() {
    let v: serde_json::Value = serde_json::from_str(&doc_json()).unwrap();
    assert!(v["openapi"].as_str().unwrap().starts_with("3."));
    assert!(v["info"].is_object());
    assert!(v["paths"].is_object());
    assert_eq!(openapi().to_json(), openapi_json());
}

#[test]
fn each_path_documents_get_with_ok_only() {
    let v: serde_json::Value = serde_json::from_str(&doc_json()).unwrap();
    for (path, item) in v["paths"].as_object().unwrap() {
        let methods: Vec<&String> = item.as_object().unwrap().keys().collect();
        assert_eq!(methods, vec!["get"], "{}", path);
        let codes: Vec<&String> = item["get"]["responses"].as_object().unwrap().keys().collect();
        assert_eq!(codes, vec!["200"], "{}", path);
    }
    let docs = &v["paths"]["/api-docs/openapi.json"]["get"]["responses"]["200"];
    assert_eq!(docs["description"], serde_json::Value::from("JSON file"));
    assert_eq!(docs["content"]["application/json"]["schema"]["type"], serde_json::Value::from("string"));
}

#[test]
fn complexdata_payload_matches_declared_schema() {
    let doc: serde_json::Value = serde_json::from_str(&doc_json()).unwrap();
    let payload: serde_json::Value = serde_json::from_str(&complexdata()).unwrap();
    let schemas = &doc["components"]["schemas"];
    let json_type = |x: &serde_json::Value| match x {
        serde_json::Value::String(_) => "string",
        serde_json::Value::Bool(_) => "boolean",
        serde_json::Value::Number(_) => "integer",
        serde_json::Value::Array(_) => "array",
        serde_json::Value::Object(_) => "object",
        serde_json::Value::Null => "null",
    };
    assert_eq!(json_type(&payload), "array");
    for item in payload.as_array().unwrap() {
        let complex = &schemas["ComplexData"];
        for (name, schema) in complex["properties"].as_object().unwrap() {
            assert_eq!(json_type(&item[name]), schema["type"].as_str().unwrap());
        }
        for rec in item["data"].as_array().unwrap() {
            let my = &schemas["MyStruct"];
            for req in my["required"].as_array().unwrap() {
                assert!(rec.get(req.as_str().unwrap()).is_some());
            }
            for (name, schema) in my["properties"].as_object().unwrap() {
                assert_eq!(json_type(&rec[name]), schema["type"].as_str().unwrap(), "{}", name);
            }
        }
    }
}
