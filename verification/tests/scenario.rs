use request_completion::handle::Handle;
use request_completion::native::{Completion, NativeCall, Poll};
use request_completion::request::Request;
use request_completion::status::Status;
use request_completion::variant::PlainRequest;

/// Stands in for the native layer: each operation finishes at the poll whose
/// number it was issued with.
struct SimulatedLayer {
    polls_left: Vec<(u64, u32)>,
}

impl SimulatedLayer {
    fn issue(&mut self, id: u64, polls: u32) -> Handle {
        self.polls_left.push((id, polls));
        Handle::Live(id)
    }

    fn perform(&mut self, calls: &[NativeCall]) -> Poll {
        assert_eq!(calls.len(), 1);
        let id = match calls[0] {
            NativeCall::Test { handle: Handle::Live(id) } => id,
            other => panic!("unexpected call {:?}", other),
        };
        let entry = self.polls_left.iter_mut().find(|entry| entry.0 == id).unwrap();
        if entry.1 == 0 {
            Poll::Ready(Completion {
                handle: Handle::Null,
                status: Status { source: id as i32, tag: 0, error: 0 },
            })
        } else {
            entry.1 -= 1;
            Poll::Pending
        }
    }
}

#[test]
fn three_plain_requests_polled_round_robin() {
    let mut layer = SimulatedLayer { polls_left: Vec::new() };
    let mut pending: Vec<Option<PlainRequest>> = vec![
        Some(PlainRequest::from_raw(layer.issue(1, 2))),
        Some(PlainRequest::from_raw(layer.issue(2, 0))),
        Some(PlainRequest::from_raw(layer.issue(3, 4))),
    ];
    let mut finished_at: Vec<Option<u32>> = vec![None, None, None];
    let mut round = 0u32;
    while pending.iter().any(|slot| slot.is_some()) {
        assert!(round < 10);
        for i in 0..3 {
            let request = match pending[i].take() {
                Some(request) => request,
                None => continue,
            };
            let issued = request.as_raw();
            let reply = layer.perform(&request.test_calls());
            match request.test(reply) {
                Ok(status) => {
                    assert_eq!(Handle::Live(status.source as u64), issued);
                    finished_at[i] = Some(round);
                }
                Err(request) => {
                    assert!(!request.is_null());
                    assert_eq!(request.as_raw(), issued);
                    pending[i] = Some(request);
                }
            }
            for (j, other) in pending.iter().enumerate() {
                if let Some(other) = other {
                    assert!(!other.is_null());
                    assert_eq!(other.as_raw(), Handle::Live(j as u64 + 1));
                }
            }
        }
        round += 1;
    }
    assert_eq!(finished_at, vec![Some(2), Some(0), Some(4)]);
}
