use sigv4_interceptor::body::{absorb, body_to_bytes, TransportError};

fn failure(detail: &str) -> TransportError {
    TransportError { detail: detail.to_string() }
}

#[test]
fn empty_body_materializes_to_no_bytes() {
    assert_eq!(body_to_bytes(vec![]), Ok(vec![]));
}

#[test]
fn empty_chunks_materialize_to_no_bytes() {
    assert_eq!(body_to_bytes(vec![Ok(vec![]), Ok(vec![]), Ok(vec![])]), Ok(vec![]));
}

#[test]
fn one_byte_body_round_trips() {
    assert_eq!(body_to_bytes(vec![Ok(vec![0x41])]), Ok(vec![0x41]));
}

#[test]
fn chunks_are_concatenated_in_order() {
    let chunks = vec![Ok(vec![1, 2, 3]), Ok(vec![]), Ok(vec![4]), Ok(vec![5, 6])];
    assert_eq!(body_to_bytes(chunks), Ok(vec![1, 2, 3, 4, 5, 6]));
}

#[test]
fn chunk_boundaries_do_not_change_the_body() {
    let body: Vec<u8> = (0u8..=40).collect();
    for first_cut in 0..=body.len() {
        for second_cut in first_cut..=body.len() {
            let chunks = vec![
                Ok(body[..first_cut].to_vec()),
                Ok(body[first_cut..second_cut].to_vec()),
                Ok(body[second_cut..].to_vec()),
            ];
            assert_eq!(body_to_bytes(chunks), Ok(body.clone()));
        }
    }
}

#[test]
fn order_of_chunks_matters() {
    assert_eq!(body_to_bytes(vec![Ok(vec![2]), Ok(vec![1])]), Ok(vec![2, 1]));
}

#[test]
fn transport_error_mid_stream_hides_the_partial_buffer() {
    let chunks = vec![Ok(vec![1, 2]), Ok(vec![3]), Err(failure("reset")), Ok(vec![4])];
    assert_eq!(body_to_bytes(chunks), Err(failure("reset")));
}

#[test]
fn transport_error_on_the_first_item() {
    assert_eq!(body_to_bytes(vec![Err(failure("refused"))]), Err(failure("refused")));
}

#[test]
fn earliest_transport_error_is_the_one_returned() {
    let chunks = vec![Ok(vec![9]), Err(failure("first")), Err(failure("second"))];
    assert_eq!(body_to_bytes(chunks), Err(failure("first")));
}

#[test]
fn transport_error_after_every_prefix() {
    let total = 5usize;
    for delivered in 0..total {
        let mut chunks = Vec::new();
        for i in 0..total {
            if i == delivered {
                chunks.push(Err(failure("cut")));
            } else {
                chunks.push(Ok(vec![i as u8]));
            }
        }
        assert_eq!(body_to_bytes(chunks), Err(failure("cut")));
    }
}

#[test]
fn absorb_appends_to_the_buffer() {
    let mut buffer = vec![1, 2];
    absorb(&mut buffer, vec![3, 4, 5]);
    assert_eq!(buffer, vec![1, 2, 3, 4, 5]);
    absorb(&mut buffer, vec![]);
    assert_eq!(buffer, vec![1, 2, 3, 4, 5]);
}

#[test]
fn transport_error_clone_keeps_the_detail() {
    let error = failure("timed out");
    assert_eq!(error.clone(), error);
}
