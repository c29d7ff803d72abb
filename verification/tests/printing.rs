use pos_commands::decoder::{error_decoded, payload_decoded, Step};
use pos_commands::model::{ApiError, Receipt};
use pos_commands::printing::{
    print_receipt_request, print_receipt_response, print_ticket_request, print_ticket_response,
};
use pos_commands::transport::{Body, Delivery, PostRequest};

fn document(text: &str) -> serde_json::Value {
    serde_json::from_str(text).unwrap()
}

fn read_receipt(body: &str) -> Result<Receipt, String> {
    let parsed: serde_json::Value =
        serde_json::from_str(body).map_err(|problem| problem.to_string())?;
    let success = parsed.get("success").and_then(|field| field.as_bool());
    let fiscal_sign = parsed.get("fiscal_sign").and_then(|field| field.as_str());
    let ofd_url = parsed.get("ofd_url").and_then(|field| field.as_str());
    match (success, fiscal_sign, ofd_url) {
        (Some(success), Some(fiscal_sign), Some(ofd_url)) => Ok(Receipt {
            success,
            fiscal_sign: fiscal_sign.to_string(),
            ofd_url: ofd_url.to_string(),
        }),
        _ => Err("not a receipt".to_string()),
    }
}

fn print_receipt_against(delivery: Delivery<&str>) -> Result<Receipt, String> {
    match print_receipt_response(delivery) {
        Step::Done(result) => result,
        Step::ReadPayload(body) => payload_decoded(read_receipt(body)),
        Step::ReadError(body) => error_decoded(Some(ApiError { error: body.to_string() })),
    }
}

fn print_ticket_against(delivery: Delivery<&str>) -> Result<bool, String> {
    match print_ticket_response(delivery) {
        Step::Done(result) => result,
        Step::ReadPayload(_) => panic!("printing a ticket reads no payload"),
        Step::ReadError(_) => panic!("printing a ticket reads no error"),
    }
}

const RECEIPT_BODY: &str =
    r#"{"success":true,"fiscal_sign":"FS-77","ofd_url":"https://ofd.example/r/77"}"#;

fn sample_receipt() -> Receipt {
    Receipt {
        success: true,
        fiscal_sign: "FS-77".to_string(),
        ofd_url: "https://ofd.example/r/77".to_string(),
    }
}

#[test]
fn print_ticket_request_carries_the_document_as_given() {
    let ticket_data = document(r#"{"lines":["Trip T100","Seat 12A"],"copies":2,"cut":true}"#);
    let plan = print_ticket_request("http://127.0.0.1:9100", ticket_data.clone());
    assert_eq!(
        plan,
        PostRequest {
            url: "http://127.0.0.1:9100/printer/ticket".to_string(),
            headers: Vec::new(),
            body: Body::Document(ticket_data),
        }
    );
}

#[test]
fn print_receipt_request_carries_the_document_as_given() {
    let receipt_data = document(r#"[{"name":"Ticket","sum":250.0},null,"x"]"#);
    let plan = print_receipt_request("http://127.0.0.1:9100", receipt_data.clone());
    assert_eq!(
        plan,
        PostRequest {
            url: "http://127.0.0.1:9100/kkt/receipt".to_string(),
            headers: Vec::new(),
            body: Body::Document(receipt_data),
        }
    );
}

#[test]
fn agent_requests_carry_no_credentials() {
    let ticket = print_ticket_request("http://agent", serde_json::Value::Null);
    let receipt = print_receipt_request("http://agent", serde_json::Value::Null);
    assert!(ticket.headers.is_empty());
    assert!(receipt.headers.is_empty());
    assert_eq!(ticket.body, Body::Document(serde_json::Value::Null));
    assert_eq!(receipt.body, Body::Document(serde_json::Value::Null));
}

#[test]
fn print_ticket_is_true_for_every_success_status() {
    for status in 200u16..300 {
        assert_eq!(print_ticket_against(Delivery::Answered(status, "printed")), Ok(true));
    }
}

#[test]
fn print_ticket_is_false_for_every_other_status() {
    for status in (0u16..200).chain(300u16..=1000) {
        assert_eq!(print_ticket_against(Delivery::Answered(status, "printed")), Ok(false));
    }
    assert_eq!(print_ticket_against(Delivery::Answered(u16::MAX, "")), Ok(false));
}

#[test]
fn print_ticket_never_asks_for_the_body() {
    assert_eq!(print_ticket_response(Delivery::Answered(200, "ok")), Step::Done(Ok(true)));
    assert_eq!(print_ticket_response(Delivery::Answered(500, "no")), Step::Done(Ok(false)));
}

#[test]
fn print_ticket_reports_an_unreachable_agent_as_network_error() {
    assert_eq!(
        print_ticket_against(Delivery::Failed("connection refused".to_string())),
        Err("Network error: connection refused".to_string())
    );
}

#[test]
fn print_receipt_returns_the_decoded_receipt() {
    assert_eq!(print_receipt_against(Delivery::Answered(200, RECEIPT_BODY)), Ok(sample_receipt()));
    assert_eq!(print_receipt_against(Delivery::Answered(201, RECEIPT_BODY)), Ok(sample_receipt()));
}

#[test]
fn print_receipt_returns_a_receipt_that_reports_no_success() {
    let body = r#"{"success":false,"fiscal_sign":"","ofd_url":""}"#;
    assert_eq!(
        print_receipt_against(Delivery::Answered(200, body)),
        Ok(Receipt { success: false, fiscal_sign: String::new(), ofd_url: String::new() })
    );
}

#[test]
fn print_receipt_has_a_fixed_message_for_every_failure_status() {
    for status in [0u16, 199, 300, 400, 404, 500, 503] {
        for body in ["", RECEIPT_BODY, r#"{"error":"paper out"}"#] {
            assert_eq!(
                print_receipt_against(Delivery::Answered(status, body)),
                Err("Failed to print receipt".to_string())
            );
        }
    }
}

#[test]
fn print_receipt_does_not_read_the_body_of_a_failure() {
    assert_eq!(
        print_receipt_response(Delivery::Answered(500, RECEIPT_BODY)),
        Step::Done(Err("Failed to print receipt".to_string()))
    );
    assert_eq!(
        print_receipt_response(Delivery::Answered(200, RECEIPT_BODY)),
        Step::ReadPayload(RECEIPT_BODY)
    );
}

#[test]
fn print_receipt_reports_a_malformed_receipt_as_parse_error() {
    let outcome = print_receipt_against(Delivery::Answered(200, r#"{"success":true}"#));
    assert_eq!(outcome, Err("Parse error: not a receipt".to_string()));
    let message = outcome.unwrap_err();
    assert_ne!(message, "Unknown error");
    assert_ne!(message, "Failed to print receipt");
}

#[test]
fn print_receipt_reports_an_unreachable_agent_as_network_error() {
    assert_eq!(
        print_receipt_against(Delivery::Failed("timed out".to_string())),
        Err("Network error: timed out".to_string())
    );
}
