use api::render::{build_failure_response, build_success_response};
use api::response::JSON_CONTENT_TYPE;
use api::{internal_error, ApiResult, Method, Payload, RequestInfo, Response};
use rocket::serde::ser::Error;
use rocket::serde::{Serialize, Serializer};

struct Stubborn;

impl Serialize for Stubborn {
    fn serialize<S: Serializer>(&self, _serializer: S) -> Result<S::Ok, S::Error> {
        Err(S::Error::custom("will not be written"))
    }
}

fn json(text: &str) -> Payload {
    Payload::Json(String::from(text))
}

#[test]
fn success_keeps_every_status() {
    let request = RequestInfo::new(Method::Get, "/widgets");
    for status in [200, 201, 202, 204, 299, 301, 400, 404, 422, 499, 500, 503, 599, 0, u16::MAX] {
        let response = ApiResult::success(status, json("[1,2,3]")).respond_to(&request);
        assert_eq!(response.status, status);
        assert_eq!(response.content_type, "application/json");
        assert_eq!(response.body, "[1,2,3]");
    }
}

#[test]
fn success_body_is_not_wrapped() {
    let request = RequestInfo::new(Method::Get, "/widgets/1");
    for text in ["null", "true", "17", "\"text\"", "{}", "[]", "{\"a\":{\"b\":[1,\"c\"]}}", ""] {
        let response = build_success_response(200, json(text), &request);
        assert_eq!(response, Response { status: 200, content_type: String::from("application/json"), body: String::from(text) });
    }
}

#[test]
fn success_of_a_serialized_value() {
    let request = RequestInfo::new(Method::Get, "/names");
    let names = vec!["ada", "grace \"hopper\""];
    let payload = Payload::from_outcome(rocket::serde::json::to_string(&names));
    let response = ApiResult::success(200, payload).respond_to(&request);
    assert_eq!(response.status, 200);
    assert_eq!(response.body, "[\"ada\",\"grace \\\"hopper\\\"\"]");
}

#[test]
fn payload_from_outcome_keeps_the_text() {
    let outcome: Result<String, ()> = Ok(String::from("{\"id\":5}"));
    assert_eq!(Payload::from_outcome(outcome), json("{\"id\":5}"));
}

#[test]
fn payload_from_outcome_drops_the_error() {
    let outcome: Result<String, &str> = Err("no");
    assert_eq!(Payload::from_outcome(outcome), Payload::Unserializable);
    assert_eq!(
        Payload::from_outcome(rocket::serde::json::to_string(&Stubborn)),
        Payload::Unserializable
    );
}

#[test]
fn unserializable_success_is_answered_as_an_internal_error() {
    let request = RequestInfo::new(Method::Post, "/widgets");
    let payload = Payload::from_outcome(rocket::serde::json::to_string(&Stubborn));
    let response = ApiResult::success(201, payload).respond_to(&request);
    assert_eq!(response.status, 500);
    assert_eq!(response.content_type, "application/json");
    assert_eq!(
        response.body,
        "{\"status\":500,\"error\":\"Internal Server Error\",\"message\":\"Ooooooops.... Looks like we messed up, sorry :)\",\"method\":\"POST\",\"path\":\"/widgets\"}"
    );
    assert_eq!(response, internal_error(&request).to_response());
}

#[test]
fn unserializable_success_forgets_the_status_it_carried() {
    let request = RequestInfo::new(Method::Get, "/");
    let first = build_success_response(200, Payload::Unserializable, &request);
    let second = build_success_response(204, Payload::Unserializable, &request);
    assert_eq!(first, second);
    assert_eq!(first.status, 500);
}

#[test]
fn failure_keeps_every_status() {
    let request = RequestInfo::new(Method::Get, "/widgets/9");
    for status in [400, 401, 403, 404, 409, 422, 500, 503, 200, 302, 0, 600, u16::MAX] {
        let response = ApiResult::failure(status, "why").respond_to(&request);
        assert_eq!(response.status, status);
        assert_eq!(response.content_type, "application/json");
        let expected = api::ApiError::new(status, "why", Method::Get, "/widgets/9");
        assert_eq!(response.body, expected.to_json());
    }
}

#[test]
fn failure_body_has_the_fields_of_the_failure_and_the_request() {
    let request = RequestInfo::new(Method::Connect, "/tunnel");
    let response = build_failure_response(409, "busy \"now\"", &request);
    let value: rocket::serde::json::Value = rocket::serde::json::from_str(&response.body).unwrap();
    assert_eq!(value["status"].as_u64(), Some(409));
    assert_eq!(value["error"].as_str(), Some("Conflict"));
    assert_eq!(value["message"].as_str(), Some("busy \"now\""));
    assert_eq!(value["method"].as_str(), Some("CONNECT"));
    assert_eq!(value["path"].as_str(), Some("/tunnel"));
    assert_eq!(value.as_object().unwrap().len(), 5);
}

#[test]
fn failure_with_an_empty_message() {
    let request = RequestInfo::new(Method::Head, "/");
    let response = ApiResult::failure(410, "").respond_to(&request);
    assert_eq!(
        response.body,
        "{\"status\":410,\"error\":\"Gone\",\"message\":\"\",\"method\":\"HEAD\",\"path\":\"/\"}"
    );
}

#[test]
fn failure_of_a_handler_and_of_the_framework_look_the_same() {
    let request = RequestInfo::new(Method::Get, "/nowhere");
    let declared = ApiResult::failure(404, api::catchers::NOT_FOUND_MESSAGE).respond_to(&request);
    let detected = api::not_found(&request).to_response();
    assert_eq!(declared, detected);
}

#[test]
fn rendering_twice_gives_the_same_response() {
    let request = RequestInfo::new(Method::Get, "/widgets/9");
    let results = [
        ApiResult::failure(404, "requested resource does not exist"),
        ApiResult::failure(500, "a \"b\"\nc"),
        ApiResult::success(200, json("{\"id\":5}")),
        ApiResult::success(204, Payload::Unserializable),
    ];
    for result in results {
        let first = result.clone().respond_to(&request);
        let second = result.respond_to(&request);
        assert_eq!(first.status, second.status);
        assert_eq!(first.content_type, second.content_type);
        assert_eq!(first.body.as_bytes(), second.body.as_bytes());
    }
}

#[test]
fn builders_make_the_variants() {
    assert_eq!(
        ApiResult::success(201, json("1")),
        ApiResult::Success { status: 201, payload: json("1") }
    );
    assert_eq!(
        ApiResult::failure(404, "gone"),
        ApiResult::Failure { status: 404, message: String::from("gone") }
    );
}

#[test]
fn content_type_is_the_one_of_the_framework() {
    assert_eq!(JSON_CONTENT_TYPE, "application/json");
    assert_eq!(JSON_CONTENT_TYPE, rocket::http::ContentType::JSON.to_string());
    let response = Response::json(200, String::from("{}"));
    assert_eq!(response.content_type, rocket::http::ContentType::JSON.to_string());
    assert_eq!(response.status, 200);
    assert_eq!(response.body, "{}");
}

#[test]
fn request_info_keeps_verb_and_path() {
    let request = RequestInfo::new(Method::Options, "/a?b=c");
    assert_eq!(request.method, Method::Options);
    assert_eq!(request.path, "/a?b=c");
    assert_eq!(request, RequestInfo { method: Method::Options, path: String::from("/a?b=c") });
}
