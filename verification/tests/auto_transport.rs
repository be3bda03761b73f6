use dns_transport::AutoTransport;
use dns_transport::Error;
use dns_transport::Flags;
use dns_transport::Query;
use dns_transport::Request;
use dns_transport::Response;
use dns_transport::SendStep;

// Record-type and class codes from the DNS wire format.
const QTYPE_NS: u16 = 2;
const QCLASS_IN: u16 = 1;

fn ns_request() -> Request {
    Request {
        transaction_id: 0xABCD,
        query: Query {
            qname: String::from("dns.lookup.dog"),
            qtype: QTYPE_NS,
            qclass: QCLASS_IN,
        },
    }
}

fn response(truncated: bool, answers: Vec<String>) -> Response {
    Response { transaction_id: 0xABCD, flags: Flags { truncated }, answers }
}

#[test]
fn new_stores_address() {
    let transport = AutoTransport::new(String::from("8.8.8.8"));
    assert_eq!(transport.address().as_str(), "8.8.8.8");
}

#[test]
fn primary_response_is_final() {
    let transport = AutoTransport::new(String::from("8.8.8.8"));
    let request = ns_request();
    let answer = response(false, vec![String::from("dns.lookup.dog. NS ns1.example.")]);
    match transport.after_primary(&request, Ok(answer.clone())) {
        SendStep::Finished(result) => assert_eq!(result, Ok(answer)),
        SendStep::Fallback(_) => panic!("secondary transport invoked without truncation"),
    }
}

#[test]
fn truncated_primary_falls_back_to_secondary() {
    let transport = AutoTransport::new(String::from("8.8.8.8"));
    let request = ns_request();
    let truncated_answer = response(true, vec![]);
    let full_answer = response(false, vec![String::from("dns.lookup.dog. NS ns1.example.")]);
    match transport.after_primary(&request, Ok(truncated_answer)) {
        SendStep::Fallback(same_request) => {
            assert_eq!(same_request, &request);
            let result = transport.after_secondary(Ok(full_answer.clone()));
            assert_eq!(result, Ok(full_answer));
        }
        SendStep::Finished(_) => panic!("truncated response returned without fallback"),
    }
}

#[test]
fn primary_error_propagates() {
    let transport = AutoTransport::new(String::from("8.8.8.8"));
    let request = ns_request();
    let error = Error::Network(String::from("connection refused"));
    match transport.after_primary(&request, Err(error.clone())) {
        SendStep::Finished(result) => assert_eq!(result, Err(error)),
        SendStep::Fallback(_) => panic!("secondary transport invoked after a primary error"),
    }
}

#[test]
fn truncated_then_secondary_error() {
    let transport = AutoTransport::new(String::from("8.8.8.8"));
    let request = ns_request();
    let truncated_answer = response(true, vec![String::from("partial answer")]);
    let error = Error::Malformed(String::from("unexpected end of packet"));
    match transport.after_primary(&request, Ok(truncated_answer)) {
        SendStep::Fallback(_) => {
            let result = transport.after_secondary(Err(error.clone()));
            assert_eq!(result, Err(error));
        }
        SendStep::Finished(_) => panic!("truncated response returned without fallback"),
    }
}

#[test]
fn secondary_truncation_is_not_escalated() {
    let transport = AutoTransport::new(String::from("8.8.8.8"));
    let request = ns_request();
    match transport.after_primary(&request, Ok(response(true, vec![]))) {
        SendStep::Fallback(_) => {
            let still_truncated = response(true, vec![String::from("partial answer")]);
            let result = transport.after_secondary(Ok(still_truncated.clone()));
            assert_eq!(result, Ok(still_truncated));
        }
        SendStep::Finished(_) => panic!("truncated response returned without fallback"),
    }
}

#[test]
fn repeated_sends_are_independent() {
    let transport = AutoTransport::new(String::from("8.8.8.8"));
    let request = ns_request();
    assert!(matches!(
        transport.after_primary(&request, Ok(response(true, vec![]))),
        SendStep::Fallback(_)
    ));
    let full_answer = response(false, vec![String::from("dns.lookup.dog. NS ns1.example.")]);
    assert!(matches!(
        transport.after_primary(&request, Ok(full_answer)),
        SendStep::Finished(Ok(_))
    ));
    assert!(matches!(
        transport.after_primary(&request, Ok(response(true, vec![]))),
        SendStep::Fallback(_)
    ));
}
