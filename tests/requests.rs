use std::collections::HashMap;

use gotify::models;
use gotify::operation::{Method, Operation, ResponseShape, Scope};
use gotify::request::{failed, reading, succeeded, Body, FieldValue, Reading};
use gotify::utils::{decimal_i64, decimal_u64};
use gotify::{AppClient, ClientClient, Error, InitError, UnauthenticatedClient};

const GOTIFY_URL: &str = "http://localhost:30080";
const GOTIFY_APP_TOKEN: &str = "AGo8b9paHo5wPkI";
const GOTIFY_CLIENT_TOKEN: &str = "C4er8DTiNk08mtt";

fn client_client() -> ClientClient {
    ClientClient::new(GOTIFY_URL, GOTIFY_CLIENT_TOKEN).unwrap()
}

fn app_client() -> AppClient {
    AppClient::new(GOTIFY_URL, GOTIFY_APP_TOKEN).unwrap()
}

fn json_fields(body: &Body) -> Vec<(String, &FieldValue)> {
    match body {
        Body::Json(fields) => fields.iter().map(|f| (f.name.clone(), &f.value)).collect(),
        other => panic!("expected a JSON body, got {other:?}"),
    }
}

fn text(value: &FieldValue) -> Option<&str> {
    match value {
        FieldValue::Text(s) => Some(s.as_str()),
        _ => None,
    }
}

#[test]
fn decimal_text_of_numbers() {
    assert_eq!(decimal_i64(0), "0");
    assert_eq!(decimal_i64(7), "7");
    assert_eq!(decimal_i64(1234), "1234");
    assert_eq!(decimal_i64(-42), "-42");
    assert_eq!(decimal_i64(i64::MIN), "-9223372036854775808");
    assert_eq!(decimal_i64(i64::MAX), "9223372036854775807");
    assert_eq!(decimal_u64(u64::MAX), "18446744073709551615");
}

#[test]
fn operation_table() {
    assert_eq!(Operation::UpdateApplication(5).path(), vec!["application", "5"]);
    assert_eq!(Operation::UpdateApplication(5).method(), Method::Put);
    assert_eq!(Operation::DeleteApplicationMessages(3).path(), vec!["application", "3", "message"]);
    assert_eq!(Operation::DeleteApplicationMessages(3).method(), Method::Delete);
    assert_eq!(Operation::UpdateCurrentUser.path(), vec!["current", "user", "password"]);
    assert_eq!(Operation::UpdateCurrentUser.shape(), ResponseShape::Empty);
    assert_eq!(Operation::GetPluginDisplay(-1).path(), vec!["plugin", "-1", "display"]);
    assert_eq!(Operation::GetPluginDisplay(-1).shape(), ResponseShape::Text);
    assert_eq!(Operation::UpdatePluginConfig(2).path(), vec!["plugin", "2", "config"]);
    assert_eq!(Operation::UpdatePluginConfig(2).method(), Method::Post);
    assert_eq!(Operation::GetUsers.shape(), ResponseShape::Json);
    assert_eq!(Operation::StreamMessages.shape(), ResponseShape::Upgrade);
    assert_eq!(Operation::Health.scope(), Scope::Public);
    assert_eq!(Operation::CreateMessage.scope(), Scope::App);
    assert_eq!(Operation::DeleteUser(1).scope(), Scope::Management);
}

#[test]
fn server_error_text() {
    let e = models::Error {
        error: "Not Found".to_string(),
        error_code: 404,
        error_description: "user does not exist".to_string(),
    };
    assert_eq!(e.to_string(), "404 Not Found: user does not exist");
}

#[test]
fn construction_errors() {
    assert!(matches!(
        ClientClient::new("not a url", GOTIFY_CLIENT_TOKEN),
        Err(InitError::InvalidUrl(_))
    ));
    assert!(matches!(
        ClientClient::new(GOTIFY_URL, "bad\ntoken"),
        Err(InitError::InvalidAccessToken(_))
    ));
    assert!(matches!(
        UnauthenticatedClient::new_unauthenticated("::"),
        Err(InitError::InvalidUrl(_))
    ));
    let unauthenticated = UnauthenticatedClient::new_unauthenticated(GOTIFY_URL).unwrap();
    assert!(matches!(
        unauthenticated.authenticate::<gotify::AppToken>("\u{7f}"),
        Err(InitError::InvalidAccessToken(_))
    ));
}

#[test]
fn authenticate() {
    let client = UnauthenticatedClient::new_unauthenticated(GOTIFY_URL).unwrap();
    let app_client: AppClient = client.authenticate(GOTIFY_APP_TOKEN).unwrap();
    let request = app_client.create_message("foobar".to_string()).build();
    assert_eq!(request.operation(), Operation::CreateMessage);
    assert_eq!(request.url().unwrap(), "http://localhost:30080/message");

    let client = UnauthenticatedClient::new_unauthenticated(GOTIFY_URL).unwrap();
    let client_client: ClientClient = client.authenticate(GOTIFY_CLIENT_TOKEN).unwrap();
    let request = client_client.get_messages().build();
    assert_eq!(request.operation(), Operation::GetMessages);
    assert_eq!(request.url().unwrap(), "http://localhost:30080/message");
}

#[test]
fn cloned_client_keeps_server() {
    let client = client_client();
    let copy = client.clone();
    assert_eq!(copy.address(), GOTIFY_URL);
    assert_eq!(copy.delete_message(7).url().unwrap(), "http://localhost:30080/message/7");
}

#[test]
fn query_pairs_join_the_url() {
    let client = client_client();
    let request = client.get_application_messages(3).with_limit(1).with_since(5).build();
    assert_eq!(
        request.url().unwrap(),
        "http://localhost:30080/application/3/message?limit=1&since=5"
    );
    let plain = client.get_messages().build();
    assert_eq!(plain.url().unwrap(), "http://localhost:30080/message");
    let cannot_take_path = ClientClient::new("mailto:someone@example.com", GOTIFY_CLIENT_TOKEN).unwrap();
    assert_eq!(cannot_take_path.get_users().url(), None);
}

#[test]
fn request_urls() {
    let client = client_client();
    let request = client.upload_application_image(1, "img.png".to_string(), vec![1, 2, 3]);
    assert_eq!(
        request.url().unwrap(),
        "http://localhost:30080/application/1/image"
    );
    assert!(matches!(request.body(), Body::File(name, content) if name == "img.png" && content == &vec![1, 2, 3]));
    let nested = ClientClient::new("http://example.com/gotify/", GOTIFY_CLIENT_TOKEN).unwrap();
    assert_eq!(
        nested.get_user(12).url().unwrap(),
        "http://example.com/gotify/user/12"
    );
}

#[test]
fn create_message_fields() {
    let client = app_client();
    let request = client
        .create_message("Hello World".to_string())
        .with_title("Hi".to_string())
        .with_priority(7)
        .with_extras(HashMap::from([(
            "foo".to_string(),
            serde_json::Value::String("bar".to_string()),
        )]))
        .build();
    let fields = json_fields(request.body());
    let names: Vec<&str> = fields.iter().map(|(n, _)| n.as_str()).collect();
    assert_eq!(names, vec!["message", "title", "extras", "priority"]);
    assert_eq!(text(fields[0].1), Some("Hello World"));
    assert_eq!(text(fields[1].1), Some("Hi"));
    match fields[2].1 {
        FieldValue::Object(extras) => {
            assert_eq!(extras.get("foo").unwrap().as_str(), Some("bar"));
        }
        other => panic!("unexpected extras {other:?}"),
    }
    assert!(matches!(fields[3].1, FieldValue::Int(7)));
}

#[test]
fn create_message_without_options() {
    let client = app_client();
    let request = client.create_message("Hello World".to_string()).build();
    let fields = json_fields(request.body());
    assert_eq!(text(fields[0].1), Some("Hello World"));
    assert!(matches!(fields[1].1, FieldValue::Null));
    assert!(matches!(fields[2].1, FieldValue::Null));
    assert!(matches!(fields[3].1, FieldValue::Null));
}

#[test]
fn setter_twice_keeps_last() {
    let client = app_client();
    let request = client
        .create_message("m".to_string())
        .with_title("first".to_string())
        .with_title("second".to_string())
        .with_priority(1)
        .with_priority(9)
        .build();
    let fields = json_fields(request.body());
    assert_eq!(text(fields[1].1), Some("second"));
    assert!(matches!(fields[3].1, FieldValue::Int(9)));

    let manager = client_client();
    let query = manager.get_messages().with_limit(1).with_limit(3).build();
    match query.body() {
        Body::Query(params) => {
            assert_eq!(params, &vec![("limit".to_string(), "3".to_string())]);
        }
        other => panic!("unexpected body {other:?}"),
    }
}

#[test]
fn create_application_fields() {
    let client = client_client();
    let request = client.create_application("App0".to_string()).build();
    assert_eq!(request.operation(), Operation::CreateApplication);
    let fields = json_fields(request.body());
    assert_eq!(fields[0].0, "name");
    assert_eq!(text(fields[0].1), Some("App0"));
    assert_eq!(fields[1].0, "defaultPriority");
    assert!(matches!(fields[1].1, FieldValue::Null));
    assert_eq!(fields[2].0, "description");
    assert!(matches!(fields[2].1, FieldValue::Null));
}

#[test]
fn update_application_keeps_id_in_path() {
    let client = client_client();
    let request = client
        .update_application(42, "updated-application".to_string())
        .with_description("updated application".to_string())
        .build();
    assert_eq!(request.operation(), Operation::UpdateApplication(42));
    let fields = json_fields(request.body());
    let names: Vec<&str> = fields.iter().map(|(n, _)| n.as_str()).collect();
    assert_eq!(names, vec!["name", "defaultPriority", "description"]);
    assert_eq!(text(fields[2].1), Some("updated application"));
}

#[test]
fn user_requests() {
    let client = client_client();
    let create = client
        .create_user(false, "new-user".to_string(), "password".to_string())
        .build();
    let fields = json_fields(create.body());
    assert!(matches!(fields[0].1, FieldValue::Bool(false)));
    assert_eq!(text(fields[1].1), Some("new-user"));
    assert_eq!(text(fields[2].1), Some("password"));

    let update = client.update_user(3, true, "updated-user".to_string()).build();
    assert_eq!(update.operation(), Operation::UpdateUser(3));
    let fields = json_fields(update.body());
    let names: Vec<&str> = fields.iter().map(|(n, _)| n.as_str()).collect();
    assert_eq!(names, vec!["admin", "name", "pass"]);
    assert!(matches!(fields[2].1, FieldValue::Null));

    let password = client.update_current_user("new-password".to_string()).build();
    assert_eq!(password.operation().path(), vec!["current", "user", "password"]);
}

#[test]
fn application_message_query() {
    let client = client_client();
    let request = client.get_application_messages(3).with_limit(1).with_since(-5).build();
    assert_eq!(request.operation(), Operation::GetApplicationMessages(3));
    match request.body() {
        Body::Query(params) => assert_eq!(
            params,
            &vec![
                ("limit".to_string(), "1".to_string()),
                ("since".to_string(), "-5".to_string())
            ]
        ),
        other => panic!("unexpected body {other:?}"),
    }
    let plain = client.get_application_messages(3).build();
    assert!(matches!(plain.body(), Body::Query(params) if params.is_empty()));
}

#[test]
fn plugin_config_body() {
    let client = client_client();
    let request = client.update_plugin_config(4, "key: value".to_string());
    assert_eq!(request.operation(), Operation::UpdatePluginConfig(4));
    assert!(matches!(request.body(), Body::Text(t) if t == "key: value"));
}

#[test]
fn delete_missing_user_reads_server_error() {
    let client = client_client();
    let request = client.delete_user(9999);
    assert_eq!(request.operation().method(), Method::Delete);
    assert_eq!(reading(404, request.operation().shape()), Reading::ServerError);
    let error = failed(Ok(models::Error {
        error: "Not Found".to_string(),
        error_code: 404,
        error_description: "user does not exist".to_string(),
    }));
    assert!(matches!(
        error,
        Error::Response(models::Error {
            error_code: 404,
            ..
        })
    ));
}

#[test]
fn status_decides_reading() {
    assert_eq!(reading(200, ResponseShape::Json), Reading::Json);
    assert_eq!(reading(204, ResponseShape::Empty), Reading::Nothing);
    assert_eq!(reading(299, ResponseShape::Text), Reading::Text);
    assert_eq!(reading(199, ResponseShape::Json), Reading::ServerError);
    assert_eq!(reading(300, ResponseShape::Empty), Reading::ServerError);
    assert_eq!(reading(500, ResponseShape::Text), Reading::ServerError);
    let ok: Result<u8, Error> = succeeded::<u8>(Ok(3));
    assert!(matches!(ok, Ok(3)));
}
