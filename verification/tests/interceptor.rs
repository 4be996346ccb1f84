use sigv4_interceptor::body::TransportError;
use sigv4_interceptor::interception::{reject, Action, Event, Interception};
use sigv4_interceptor::outcome::{Reason, VerificationOutcome};
use sigv4_interceptor::principal::Principal;
use sigv4_interceptor::request::{Header, Request, RequestHead};
use sigv4_interceptor::response::Response;
use sigv4_interceptor::service::AwsSigV4VerifierService;

const BODY: &str = "{\"Error\":{\"Code\":\"NotAuthorized\",\"Message\":\"SigV4 validation failed\"}}";

type Downstream = Result<String, String>;

fn service() -> AwsSigV4VerifierService<()> {
    AwsSigV4VerifierService::new("us-east-1", "execute-api", ())
}

fn head(uri: &str) -> RequestHead {
    RequestHead::new(
        "PUT".to_string(),
        uri.to_string(),
        vec![
            Header { name: "host".to_string(), value: b"example.com".to_vec() },
            Header { name: "authorization".to_string(), value: b"AWS4-HMAC-SHA256 x".to_vec() },
        ],
    )
}

fn every_reason() -> Vec<Reason> {
    vec![
        Reason::TransportReadFailure,
        Reason::MalformedSignatureHeaders,
        Reason::SignatureMismatch,
        Reason::ClockSkewExceeded,
        Reason::UnknownSigningKey,
    ]
}

/// What one interception came to, as seen from outside.
enum Seen {
    Forwarded { request: Request, answer: Downstream, pulls: usize },
    Refused { response: Response, reason: Reason, pulls: usize, asked_verifier: bool },
}

/// Drives one interception the way a server would: feeds the body, asks the
/// verifier once the machine says so, calls the handler once the machine says
/// so. Panics if the handler would be called twice.
fn drive(
    head: RequestHead,
    stream: Vec<Result<Vec<u8>, TransportError>>,
    verifier: &dyn Fn(&RequestHead, &[u8]) -> VerificationOutcome,
    handler: &dyn Fn(&Request) -> Downstream,
) -> Seen {
    let service = service();
    let mut state = service.intercept(head);
    let mut items = stream.into_iter();
    let mut action: Action<Downstream> = Action::PullChunk;
    let mut pulls = 0usize;
    let mut asked_verifier = false;
    let mut forwarded: Option<Request> = None;
    loop {
        let event = match action {
            Action::PullChunk => {
                pulls += 1;
                match items.next() {
                    Some(Ok(bytes)) => Event::Chunk(bytes),
                    Some(Err(error)) => Event::TransportFailure(error),
                    None => Event::EndOfBody,
                }
            },
            Action::Verify => {
                asked_verifier = true;
                let input = service.verifier_input(&state).unwrap();
                Event::Verdict(verifier(input.head, input.body))
            },
            Action::CallDownstream(request) => {
                assert!(forwarded.is_none());
                let answer = handler(&request);
                forwarded = Some(request);
                Event::DownstreamReturned(answer)
            },
            Action::Return(answer) => {
                assert!(matches!(state, Interception::Finished));
                return Seen::Forwarded { request: forwarded.unwrap(), answer, pulls };
            },
            Action::Reject { response, reason } => {
                assert!(matches!(state, Interception::Finished));
                assert!(forwarded.is_none());
                return Seen::Refused { response, reason, pulls, asked_verifier };
            },
            Action::Ignore => panic!("the machine ignored an event of its own asking"),
        };
        let (next, then) = state.step(event);
        state = next;
        action = then;
    }
}

fn accept_as(principal: Principal) -> impl Fn(&RequestHead, &[u8]) -> VerificationOutcome {
    move |_, _| VerificationOutcome::Verified(principal.clone())
}

fn refuse_for(reason: Reason) -> impl Fn(&RequestHead, &[u8]) -> VerificationOutcome {
    move |_, _| VerificationOutcome::Failed(reason)
}

fn echo(request: &Request) -> Downstream {
    Ok(format!("{} bytes for {:?}", request.body.len(), request.head.principal()))
}

fn never(_: &Request) -> Downstream {
    panic!("the handler downstream was invoked")
}

#[test]
fn valid_request_reaches_downstream_with_identical_body_and_principal() {
    let body = b"Action=ListUsers&Version=2010-05-08".to_vec();
    let stream = vec![Ok(body[..7].to_vec()), Ok(body[7..20].to_vec()), Ok(body[20..].to_vec())];
    let seen = drive(
        head("/users"),
        stream,
        &accept_as(Principal::service("local", "hello")),
        &|request| Ok(format!("handled {}", request.head.uri)),
    );
    match seen {
        Seen::Forwarded { request, answer, pulls } => {
            assert_eq!(request.body, body);
            assert_eq!(request.head.principal(), Some(&Principal::service("local", "hello")));
            assert_eq!(request.head.method, "PUT");
            assert_eq!(request.head.uri, "/users");
            assert_eq!(request.head.headers.len(), 2);
            assert_eq!(request.head.headers[1].value, b"AWS4-HMAC-SHA256 x".to_vec());
            assert_eq!(answer, Ok("handled /users".to_string()));
            assert_eq!(pulls, 4);
        },
        Seen::Refused { .. } => panic!("a verified request was refused"),
    }
}

#[test]
fn downstream_error_is_passed_on_as_it_is() {
    let seen = drive(
        head("/fails"),
        vec![Ok(vec![1])],
        &accept_as(Principal::user("aws", "alice")),
        &|_| Err("handler broke".to_string()),
    );
    match seen {
        Seen::Forwarded { answer, .. } => assert_eq!(answer, Err("handler broke".to_string())),
        Seen::Refused { .. } => panic!("a verified request was refused"),
    }
}

#[test]
fn zero_length_body_verifies_like_any_other() {
    let seen = drive(head("/empty"), vec![], &accept_as(Principal::user("aws", "alice")), &echo);
    match seen {
        Seen::Forwarded { request, pulls, .. } => {
            assert!(request.body.is_empty());
            assert_eq!(request.head.principal(), Some(&Principal::user("aws", "alice")));
            assert_eq!(pulls, 1);
        },
        Seen::Refused { .. } => panic!("a verified request was refused"),
    }
}

#[test]
fn verifier_sees_the_whole_body_whatever_the_boundaries() {
    let body: Vec<u8> = (0u8..50).collect();
    for cut in 0..=body.len() {
        let expected = body.clone();
        let seen = drive(
            head("/cut"),
            vec![Ok(body[..cut].to_vec()), Ok(body[cut..].to_vec())],
            &move |_, bytes| {
                if bytes == &expected[..] {
                    VerificationOutcome::Verified(Principal::service("local", "hello"))
                } else {
                    VerificationOutcome::Failed(Reason::SignatureMismatch)
                }
            },
            &echo,
        );
        match seen {
            Seen::Forwarded { request, .. } => assert_eq!(request.body, body),
            Seen::Refused { .. } => panic!("the verifier saw another body"),
        }
    }
}

#[test]
fn every_failure_reason_gets_the_same_401_and_never_reaches_downstream() {
    for reason in every_reason() {
        let seen = drive(head("/secret"), vec![Ok(vec![1, 2, 3])], &refuse_for(reason), &never);
        match seen {
            Seen::Refused { response, reason: logged, asked_verifier, .. } => {
                assert_eq!(response.status, 401);
                assert_eq!(response.headers.len(), 1);
                assert_eq!(response.headers[0].name, "Content-Type");
                assert_eq!(response.headers[0].value, b"application/json".to_vec());
                assert_eq!(response.body, BODY.as_bytes().to_vec());
                assert_eq!(logged, reason);
                assert!(asked_verifier);
            },
            Seen::Forwarded { .. } => panic!("an unverified request was forwarded"),
        }
    }
}

#[test]
fn transport_failure_mid_stream_is_refused_without_verification() {
    let total = 4usize;
    for delivered in 0..=total {
        let mut stream: Vec<Result<Vec<u8>, TransportError>> = Vec::new();
        for i in 0..delivered {
            stream.push(Ok(vec![i as u8; 3]));
        }
        stream.push(Err(TransportError { detail: "connection reset".to_string() }));
        for i in delivered..total {
            stream.push(Ok(vec![i as u8; 3]));
        }
        let seen = drive(
            head("/upload"),
            stream,
            &|_, _| panic!("the verifier was asked about a truncated body"),
            &never,
        );
        match seen {
            Seen::Refused { response, reason, pulls, asked_verifier } => {
                assert_eq!(response.status, 401);
                assert_eq!(response.body, BODY.as_bytes().to_vec());
                assert_eq!(reason, Reason::TransportReadFailure);
                assert_eq!(pulls, delivered + 1);
                assert!(!asked_verifier);
            },
            Seen::Forwarded { .. } => panic!("a truncated request was forwarded"),
        }
    }
}

#[test]
fn same_request_twice_gives_the_same_outcome() {
    let verifier = |head: &RequestHead, body: &[u8]| {
        if head.uri == "/ok" && body == b"payload" {
            VerificationOutcome::Verified(Principal::user("aws", "alice"))
        } else {
            VerificationOutcome::Failed(Reason::SignatureMismatch)
        }
    };
    for _ in 0..2 {
        match drive(head("/ok"), vec![Ok(b"pay".to_vec()), Ok(b"load".to_vec())], &verifier, &echo)
        {
            Seen::Forwarded { request, answer, .. } => {
                assert_eq!(request.body, b"payload".to_vec());
                assert_eq!(request.head.principal(), Some(&Principal::user("aws", "alice")));
                assert_eq!(
                    answer,
                    Ok(format!("7 bytes for {:?}", Some(&Principal::user("aws", "alice"))))
                );
            },
            Seen::Refused { .. } => panic!("a verified request was refused"),
        }
    }
    for _ in 0..2 {
        match drive(head("/ok"), vec![Ok(b"tampered".to_vec())], &verifier, &never) {
            Seen::Refused { response, reason, .. } => {
                assert_eq!(response.status, 401);
                assert_eq!(reason, Reason::SignatureMismatch);
            },
            Seen::Forwarded { .. } => panic!("a tampered request was forwarded"),
        }
    }
}

#[test]
fn clock_skew_edge_is_accepted_and_one_second_beyond_is_rejected() {
    let service = service();
    let signed_at: i64 = 1_440_938_160;
    let double = |now: i64| {
        let service = service.clone();
        move |_: &RequestHead, _: &[u8]| {
            if service.within_allowed_mismatch(signed_at, now) {
                VerificationOutcome::Verified(Principal::service("local", "hello"))
            } else {
                VerificationOutcome::Failed(Reason::ClockSkewExceeded)
            }
        }
    };
    for now in [signed_at + 300, signed_at - 300, signed_at] {
        match drive(head("/timed"), vec![Ok(vec![1])], &double(now), &echo) {
            Seen::Forwarded { request, .. } => {
                assert_eq!(request.head.principal(), Some(&Principal::service("local", "hello")))
            },
            Seen::Refused { .. } => panic!("a timestamp inside the window was refused"),
        }
    }
    for now in [signed_at + 301, signed_at - 301] {
        match drive(head("/timed"), vec![Ok(vec![1])], &double(now), &never) {
            Seen::Refused { response, reason, .. } => {
                assert_eq!(response.status, 401);
                assert_eq!(response.body, BODY.as_bytes().to_vec());
                assert_eq!(reason, Reason::ClockSkewExceeded);
            },
            Seen::Forwarded { .. } => panic!("an expired request was forwarded"),
        }
    }
}

#[test]
fn interleaved_requests_resolve_independently() {
    let service = service();
    let count = 8usize;
    let mut states: Vec<Option<Interception>> = Vec::new();
    for i in 0..count {
        states.push(Some(service.intercept(head(&format!("/request/{}", i)))));
    }
    let mut forwarded: Vec<Option<Request>> = (0..count).map(|_| None).collect();
    let mut refused: Vec<Option<(Response, Reason)>> = (0..count).map(|_| None).collect();
    // Three rounds of chunks, one chunk for each request in each round.
    for round in 0..3u8 {
        for i in 0..count {
            let state = states[i].take().unwrap();
            let (next, action) = state.step(Event::<()>::Chunk(vec![i as u8, round]));
            assert!(matches!(action, Action::PullChunk));
            states[i] = Some(next);
        }
    }
    for i in (0..count).rev() {
        let state = states[i].take().unwrap();
        let (next, action) = state.step(Event::<()>::EndOfBody);
        assert!(matches!(action, Action::Verify));
        states[i] = Some(next);
    }
    for i in 0..count {
        let state = states[i].take().unwrap();
        let outcome = if i % 2 == 0 {
            VerificationOutcome::Verified(Principal::user("aws", &format!("user-{}", i)))
        } else {
            VerificationOutcome::Failed(Reason::SignatureMismatch)
        };
        let (next, action) = state.step(Event::<()>::Verdict(outcome));
        match action {
            Action::CallDownstream(request) => forwarded[i] = Some(request),
            Action::Reject { response, reason } => refused[i] = Some((response, reason)),
            other => panic!("unexpected action {:?}", other),
        }
        states[i] = Some(next);
    }
    for i in 0..count {
        if i % 2 == 0 {
            let request = forwarded[i].take().unwrap();
            assert!(refused[i].is_none());
            assert_eq!(request.head.uri, format!("/request/{}", i));
            assert_eq!(request.body, vec![i as u8, 0, i as u8, 1, i as u8, 2]);
            assert_eq!(
                request.head.principal(),
                Some(&Principal::user("aws", &format!("user-{}", i)))
            );
            assert!(matches!(states[i], Some(Interception::Forwarding)));
        } else {
            let (response, reason) = refused[i].take().unwrap();
            assert!(forwarded[i].is_none());
            assert_eq!(response.status, 401);
            assert_eq!(response.body, BODY.as_bytes().to_vec());
            assert_eq!(reason, Reason::SignatureMismatch);
            assert!(matches!(states[i], Some(Interception::Finished)));
        }
    }
}

#[test]
fn events_out_of_turn_change_nothing() {
    let service = service();
    let state = service.intercept(head("/stray"));
    let (state, action) = state.step(Event::<u8>::Verdict(VerificationOutcome::Verified(
        Principal::user("aws", "mallory"),
    )));
    assert!(matches!(action, Action::Ignore));
    let (state, action) = state.step(Event::<u8>::DownstreamReturned(1));
    assert!(matches!(action, Action::Ignore));
    let (state, _) = state.step(Event::<u8>::Chunk(vec![5]));
    let (state, action) = state.step(Event::<u8>::EndOfBody);
    assert!(matches!(action, Action::Verify));
    let (state, action) = state.step(Event::<u8>::Chunk(vec![6]));
    assert!(matches!(action, Action::Ignore));
    let (state, action) = state.step(Event::<u8>::EndOfBody);
    assert!(matches!(action, Action::Ignore));
    let (state, action) = state.step(Event::<u8>::TransportFailure(TransportError {
        detail: "late".to_string(),
    }));
    assert!(matches!(action, Action::Ignore));
    match &state {
        Interception::Verifying { head, body } => {
            assert_eq!(head.principal(), None);
            assert_eq!(body, &vec![5u8]);
        },
        other => panic!("unexpected state {:?}", other),
    }
    let (state, action) =
        state.step(Event::<u8>::Verdict(VerificationOutcome::Failed(Reason::UnknownSigningKey)));
    assert!(matches!(action, Action::Reject { reason: Reason::UnknownSigningKey, .. }));
    assert!(matches!(state, Interception::Finished));
}

#[test]
fn finished_interception_ignores_everything() {
    let service = service();
    let state = service.intercept(head("/done"));
    let (state, _) = state.step(Event::<u8>::TransportFailure(TransportError {
        detail: "reset".to_string(),
    }));
    let events = vec![
        Event::<u8>::Chunk(vec![1]),
        Event::EndOfBody,
        Event::Verdict(VerificationOutcome::Verified(Principal::user("aws", "mallory"))),
        Event::DownstreamReturned(3),
        Event::TransportFailure(TransportError { detail: "again".to_string() }),
    ];
    let mut state = state;
    for event in events {
        let (next, action) = state.step(event);
        assert!(matches!(action, Action::Ignore));
        assert!(matches!(next, Interception::Finished));
        state = next;
    }
}

#[test]
fn forwarding_waits_for_the_handler_only() {
    let service = service();
    let state = service.intercept(head("/wait"));
    let (state, _) = state.step(Event::<u8>::EndOfBody);
    let (state, _) = state
        .step(Event::<u8>::Verdict(VerificationOutcome::Verified(Principal::user("aws", "a"))));
    let (state, action) =
        state.step(Event::<u8>::Verdict(VerificationOutcome::Failed(Reason::SignatureMismatch)));
    assert!(matches!(action, Action::Ignore));
    assert!(matches!(state, Interception::Forwarding));
    let (state, action) = state.step(Event::<u8>::DownstreamReturned(200));
    assert!(matches!(action, Action::Return(200)));
    assert!(matches!(state, Interception::Finished));
}

#[test]
fn reject_pairs_the_uniform_response_with_the_reason() {
    match reject::<()>(Reason::ClockSkewExceeded) {
        Action::Reject { response, reason } => {
            assert_eq!(response.status, 401);
            assert_eq!(response.body, BODY.as_bytes().to_vec());
            assert_eq!(reason, Reason::ClockSkewExceeded);
        },
        other => panic!("unexpected action {:?}", other),
    }
}
