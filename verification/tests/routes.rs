use x402_facilitator::handlers::{
    get_settle_info, get_verify_info, recorded_body, routes, Endpoint, Method, Route,
};
use x402_facilitator::response::{EndpointInfo, RequestSchema, Response, ResponseBody, Status};

fn route(method: Method, path: &str, endpoint: Endpoint) -> Route {
    Route { method, path: path.to_string(), endpoint }
}

#[test]
fn routing_table() {
    assert_eq!(
        routes(),
        vec![
            route(Method::Get, "/", Endpoint::Root),
            route(Method::Get, "/verify", Endpoint::VerifyInfo),
            route(Method::Post, "/verify", Endpoint::Verify),
            route(Method::Get, "/settle", Endpoint::SettleInfo),
            route(Method::Post, "/settle", Endpoint::Settle),
            route(Method::Get, "/health", Endpoint::Health),
            route(Method::Get, "/supported", Endpoint::Supported),
        ]
    );
}

#[test]
fn routes_do_not_overlap() {
    let table = routes();
    for (i, first) in table.iter().enumerate() {
        for second in &table[i + 1..] {
            assert!(first.method != second.method || first.path != second.path);
            assert_ne!(first.endpoint, second.endpoint);
        }
    }
}

#[test]
fn verify_info() {
    assert_eq!(
        get_verify_info(),
        Response {
            status: Status::Success,
            body: ResponseBody::Info(EndpointInfo {
                endpoint: "/verify".to_string(),
                description: "POST to verify x402 payments".to_string(),
                body: RequestSchema {
                    payment_payload: "PaymentPayload".to_string(),
                    payment_requirements: "PaymentRequirements".to_string(),
                },
            }),
        }
    );
}

#[test]
fn settle_info() {
    assert_eq!(
        get_settle_info(),
        Response {
            status: Status::Success,
            body: ResponseBody::Info(EndpointInfo {
                endpoint: "/settle".to_string(),
                description: "POST to settle x402 payments".to_string(),
                body: RequestSchema {
                    payment_payload: "PaymentPayload".to_string(),
                    payment_requirements: "PaymentRequirements".to_string(),
                },
            }),
        }
    );
}

#[test]
fn recorded_body_of_a_serialized_request() {
    assert_eq!(
        recorded_body(Some("{\"paymentPayload\":{}}".to_string())),
        "{\"paymentPayload\":{}}"
    );
    assert_eq!(recorded_body(Some(String::new())), "");
}

#[test]
fn recorded_body_of_a_request_that_cannot_be_serialized() {
    assert_eq!(recorded_body(None), "<can-not-serialize>");
}
