use actix_governor::http::{contains_method, TOO_MANY_REQUESTS};
use actix_governor::key_extractor::default_exceed_rate_limit_response;
use actix_governor::service::{limits_method, rejection_header_list};
use actix_governor::{
    Admission, ContentType, Decision, Decoration, GlobalKey, GlobalKeyExtractor,
    GovernorConfigBuilder, GovernorResult, Header, KeyExtractor, Method, NotUntil, PeerIp,
    PeerIpKeyExtractor, Policy, RequestView, Response, ResponseBuilder, SimpleKeyExtractionError,
    StateSnapshot, Step, Governor,
};

const POLICIES: [Policy; 4] = [
    Policy { use_headers: false, permissive: false },
    Policy { use_headers: false, permissive: true },
    Policy { use_headers: true, permissive: false },
    Policy { use_headers: true, permissive: true },
];

fn header(name: &str, value: &str) -> Header {
    Header { name: name.to_owned(), value: value.to_owned() }
}

fn wait(wait_secs: u64, wait_subsec_nanos: u32) -> NotUntil {
    NotUntil { burst_size: 6, wait_secs, wait_subsec_nanos }
}

#[test]
fn methods_are_compared_by_verb() {
    assert!(Method::Get.same_as(&Method::Get));
    assert!(!Method::Get.same_as(&Method::Head));
    assert!(!Method::Trace.same_as(&Method::Extension("TRACE".to_owned())));
    assert!(Method::Extension("PURGE".to_owned()).same_as(&Method::Extension("PURGE".to_owned())));
    assert!(!Method::Extension("PURGE".to_owned()).same_as(&Method::Extension("purge".to_owned())));
    assert_eq!(Method::Extension("LOCK".to_owned()).clone(), Method::Extension("LOCK".to_owned()));
}

#[test]
fn method_filter_lists_what_is_limited() {
    let listed = vec![Method::Get, Method::Extension("PURGE".to_owned()), Method::Delete];
    assert!(contains_method(&listed, &Method::Get));
    assert!(contains_method(&listed, &Method::Delete));
    assert!(contains_method(&listed, &Method::Extension("PURGE".to_owned())));
    assert!(!contains_method(&listed, &Method::Post));
    assert!(!contains_method(&vec![], &Method::Get));
    assert!(limits_method(&None, &Method::Post));
    assert!(limits_method(&Some(listed.clone()), &Method::Delete));
    assert!(!limits_method(&Some(listed), &Method::Patch));
    assert!(!limits_method(&Some(vec![]), &Method::Get));
}

#[test]
fn bypass_is_marked_only_with_headers_enabled() {
    for policy in POLICIES {
        let expected = if policy.use_headers { Decoration::Whitelisted } else { Decoration::Plain };
        assert_eq!(
            policy.whitelisted::<u8>(),
            Admission::Forward { result: GovernorResult::Whitelisted, decoration: expected }
        );
    }
}

#[test]
fn whitelisted_key_is_never_checked() {
    for policy in POLICIES {
        assert_eq!(policy.on_key::<u32, u8>(17, true), Step::Done(policy.whitelisted()));
        assert_eq!(policy.on_key::<u32, u8>(17, false), Step::Check(17));
    }
}

#[test]
fn extraction_failure_ends_the_request_unless_permissive() {
    for policy in POLICIES {
        assert_eq!(policy.on_extraction::<u32, u8>(Ok(3)), Step::Check(3));
        let expected = if policy.permissive {
            Admission::Forward {
                result: GovernorResult::ExtractionError(9),
                decoration: Decoration::Plain,
            }
        } else {
            Admission::Fail(9)
        };
        assert_eq!(policy.on_extraction::<u32, u8>(Err(9)), Step::Done(expected));
    }
}

#[test]
fn admitted_request_reports_the_quota_with_headers_enabled() {
    let snapshot = StateSnapshot { burst_size: 8, remaining_burst_capacity: 5 };
    for policy in POLICIES {
        let expected = if policy.use_headers {
            Admission::Forward {
                result: GovernorResult::Allowed { burst_size: Some(8), remaining: Some(5) },
                decoration: Decoration::RateLimit { burst_size: 8, remaining: 5 },
            }
        } else {
            Admission::Forward {
                result: GovernorResult::Allowed { burst_size: None, remaining: None },
                decoration: Decoration::Plain,
            }
        };
        assert_eq!(policy.admitted::<u8>(snapshot), expected);
    }
}

#[test]
fn blocked_request_is_recorded_in_whole_seconds() {
    let negative = wait(3, 999_999_999);
    assert_eq!(negative.wait_time_secs(), 3);
    for policy in POLICIES {
        let burst_size = if policy.use_headers { Some(6) } else { None };
        assert_eq!(
            policy.wait_result::<u8>(&negative),
            GovernorResult::Wait { wait: 3, burst_size }
        );
        assert_eq!(
            policy.observed::<u8>(&negative),
            Admission::Forward {
                result: GovernorResult::Wait { wait: 3, burst_size },
                decoration: Decoration::Plain,
            }
        );
    }
}

#[test]
fn rejection_carries_the_wait_header() {
    let negative = wait(12, 5);
    let response = default_exceed_rate_limit_response(&negative, ResponseBuilder::new(429));
    for policy in POLICIES {
        let (burst_size, headers) = if policy.use_headers {
            (
                Some(6),
                vec![
                    header("x-ratelimit-after", "12"),
                    header("x-ratelimit-limit", "6"),
                    header("x-ratelimit-remaining", "0"),
                ],
            )
        } else {
            (None, vec![header("x-ratelimit-after", "12")])
        };
        assert_eq!(
            policy.rejected::<u8>(&negative, response.clone()),
            Admission::Reject {
                result: GovernorResult::Wait { wait: 12, burst_size },
                headers,
                response: response.clone(),
            }
        );
    }
}

#[test]
fn decoration_headers() {
    assert_eq!(Decoration::Plain.headers(), vec![]);
    assert_eq!(
        Decoration::RateLimit { burst_size: 10, remaining: 9 }.headers(),
        vec![header("x-ratelimit-limit", "10"), header("x-ratelimit-remaining", "9")]
    );
    assert_eq!(
        Decoration::Whitelisted.headers(),
        vec![header("x-ratelimit-whitelisted", "true")]
    );
}

#[test]
fn rejection_headers_by_numbers() {
    assert_eq!(rejection_header_list(0, None), vec![header("x-ratelimit-after", "0")]);
    assert_eq!(
        rejection_header_list(u64::MAX, Some(u32::MAX)),
        vec![
            header("x-ratelimit-after", "18446744073709551615"),
            header("x-ratelimit-limit", "4294967295"),
            header("x-ratelimit-remaining", "0"),
        ]
    );
}

#[test]
fn default_rejection_is_plain_text() {
    let builder = ResponseBuilder::new(TOO_MANY_REQUESTS).insert_header(header("x-kept", "yes"));
    assert_eq!(
        default_exceed_rate_limit_response(&wait(61, 0), builder),
        Response {
            status_code: 429,
            headers: vec![header("x-kept", "yes")],
            content_type: Some(ContentType::Plaintext),
            body: "Too many requests, retry in 61s".to_owned(),
        }
    );
}

#[test]
fn response_builder_keeps_what_was_set() {
    let response = ResponseBuilder::new(200)
        .status(418)
        .insert_header(header("a", "1"))
        .content_type(ContentType::Other("image/png".to_owned()))
        .insert_header(header("b", "2"))
        .body("short and stout".to_owned());
    assert_eq!(response.status_code, 418);
    assert_eq!(response.headers, vec![header("a", "1"), header("b", "2")]);
    assert_eq!(response.content_type, Some(ContentType::Other("image/png".to_owned())));
    assert_eq!(response.body, "short and stout");
    assert_eq!(Header::new("x-name", "value".to_owned()), header("x-name", "value"));
}

#[test]
fn content_types_spell_their_media_type() {
    assert_eq!(ContentType::plaintext().mime(), "text/plain; charset=utf-8");
    assert_eq!(ContentType::json().mime(), "application/json");
    assert_eq!(ContentType::html().mime(), "text/html; charset=utf-8");
    assert_eq!(ContentType::Other("text/csv".to_owned()).mime(), "text/csv");
    assert_eq!(ContentType::Other("text/csv".to_owned()).clone().mime(), "text/csv");
}

#[test]
fn simple_error_defaults_and_setters() {
    let error = SimpleKeyExtractionError::new("Some error content");
    assert_eq!(error.body, "Some error content");
    assert_eq!(error.content_type, ContentType::plaintext());
    assert_eq!(error.status_code, 500);

    let error = SimpleKeyExtractionError::new("Some error content").set_status_code(403);
    assert_eq!(error.body, "Some error content");
    assert_eq!(error.content_type, ContentType::plaintext());
    assert_eq!(error.status_code(), 403);

    let error = SimpleKeyExtractionError::new(r#"{"msg":"Some error content"}"#)
        .set_content_type(ContentType::json());
    assert_eq!(error.body, r#"{"msg":"Some error content"}"#);
    assert_eq!(error.content_type, ContentType::json());
    assert_eq!(error.status_code, 500);
    assert_eq!(
        error.error_response(),
        Response {
            status_code: 500,
            headers: vec![],
            content_type: Some(ContentType::Json),
            body: r#"{"msg":"Some error content"}"#.to_owned(),
        }
    );
}

#[test]
fn simple_error_answers_with_its_text() {
    let error = SimpleKeyExtractionError::new("test").set_status_code(403);
    let expected = Response {
        status_code: 403,
        headers: vec![],
        content_type: Some(ContentType::Plaintext),
        body: "test".to_owned(),
    };
    assert_eq!(error.text_response(), expected);
    assert_eq!(error.error_response(), expected);
    assert_eq!(error.to_string(), "SimpleKeyExtractionError");

    let error = SimpleKeyExtractionError::new(r#"{"code":401}"#.to_owned())
        .set_content_type(ContentType::json())
        .set_status_code(401);
    let expected = Response {
        status_code: 401,
        headers: vec![],
        content_type: Some(ContentType::Json),
        body: r#"{"code":401}"#.to_owned(),
    };
    assert_eq!(error.text_response(), expected);
    assert_eq!(error.error_response(), expected);
    assert_eq!(error.to_string(), "SimpleKeyExtractionError");
}

#[test]
fn built_in_extractors_answer_a_blocked_request_in_plain_text() {
    let builder = || ResponseBuilder::new(TOO_MANY_REQUESTS).insert_header(header("x-kept", "1"));
    let expected = Response {
        status_code: 429,
        headers: vec![header("x-kept", "1")],
        content_type: Some(ContentType::Plaintext),
        body: "Too many requests, retry in 0s".to_owned(),
    };
    let negative = wait(0, 90_000_000);
    assert_eq!(PeerIpKeyExtractor.exceed_rate_limit_response(&negative, builder()), expected);
    assert_eq!(GlobalKeyExtractor.exceed_rate_limit_response(&negative, builder()), expected);
}

#[test]
fn built_in_extractors() {
    let with_peer = RequestView {
        method: Method::Get,
        peer_addr: Some(PeerIp::V4(0x0a00_0001)),
        headers: vec![],
    };
    let without_peer = RequestView { method: Method::Put, peer_addr: None, headers: vec![] };

    assert_eq!(PeerIpKeyExtractor.extract(&with_peer), Ok(PeerIp::V4(0x0a00_0001)));
    assert_eq!(
        PeerIpKeyExtractor.extract(&without_peer),
        Err(SimpleKeyExtractionError::new("Could not extract peer IP address from request"))
    );
    assert_eq!(PeerIpKeyExtractor.name(), "peer IP");
    assert!(!PeerIpKeyExtractor.is_whitelisted(&PeerIp::V6(1)));
    assert_eq!(PeerIpKeyExtractor.key_name(&PeerIp::V6(1)), None);

    assert_eq!(GlobalKeyExtractor.extract(&with_peer), Ok(GlobalKey));
    assert_eq!(GlobalKeyExtractor.extract(&without_peer), Ok(GlobalKey));
    assert_eq!(GlobalKeyExtractor.name(), "global");
    assert!(!GlobalKeyExtractor.is_whitelisted(&GlobalKey));
    assert_eq!(GlobalKeyExtractor.key_name(&GlobalKey), None);
    assert_eq!(
        GlobalKeyExtractor.exceed_rate_limit_response(&wait(1, 0), ResponseBuilder::new(429)).body,
        "Too many requests, retry in 1s"
    );
}

#[test]
fn decision_is_shaped_by_the_policy() {
    let negative = wait(2, 0);
    let snapshot = StateSnapshot { burst_size: 6, remaining_burst_capacity: 0 };
    for policy in POLICIES {
        let mut builder = GovernorConfigBuilder::default();
        builder.permissive(policy.permissive);
        let config = if policy.use_headers {
            builder.use_headers().finish().unwrap()
        } else {
            builder.finish().unwrap()
        };
        let app = Governor::new(&config).new_transform();
        assert_eq!(app.policy, policy);
        assert_eq!(app.on_decision(Decision::Positive(snapshot)), policy.admitted(snapshot));
        let expected = if policy.permissive {
            policy.observed(&negative)
        } else {
            let response = default_exceed_rate_limit_response(&negative, ResponseBuilder::new(429));
            policy.rejected(&negative, response)
        };
        assert_eq!(app.on_decision(Decision::Negative(negative)), expected);
    }
}
