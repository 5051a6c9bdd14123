use api::Method;

#[test]
fn verbs_are_written_in_upper_case() {
    assert_eq!(Method::Get.as_str(), "GET");
    assert_eq!(Method::Put.as_str(), "PUT");
    assert_eq!(Method::Post.as_str(), "POST");
    assert_eq!(Method::Delete.as_str(), "DELETE");
    assert_eq!(Method::Options.as_str(), "OPTIONS");
    assert_eq!(Method::Head.as_str(), "HEAD");
    assert_eq!(Method::Trace.as_str(), "TRACE");
    assert_eq!(Method::Connect.as_str(), "CONNECT");
    assert_eq!(Method::Patch.as_str(), "PATCH");
}

#[test]
fn verbs_are_written_as_the_framework_writes_them() {
    let pairs = [
        (Method::Get, rocket::http::Method::Get),
        (Method::Put, rocket::http::Method::Put),
        (Method::Post, rocket::http::Method::Post),
        (Method::Delete, rocket::http::Method::Delete),
        (Method::Options, rocket::http::Method::Options),
        (Method::Head, rocket::http::Method::Head),
        (Method::Trace, rocket::http::Method::Trace),
        (Method::Connect, rocket::http::Method::Connect),
        (Method::Patch, rocket::http::Method::Patch),
    ];
    for (ours, theirs) in pairs {
        assert_eq!(ours.as_str(), theirs.as_str());
    }
}
