use mmck_queue::capacity::ServiceTime;
use mmck_queue::executor::JobRequest;
use mmck_queue::protector::{Response, SystemProtector};
use mmck_queue::queue::Dequeued;

fn job(source: &str, n: u32) -> JobRequest {
    JobRequest {
        source: source.to_string(),
        command: "add".to_string(),
        params: vec![n.to_string(), "2".to_string()],
    }
}

fn two_workers_ten_slots() -> SystemProtector {
    let p = SystemProtector::new(3, 500, ServiceTime::from_millis(100).unwrap()).unwrap();
    assert_eq!(p.workers(), 2);
    assert_eq!(p.capacity(), 10);
    p
}

#[test]
fn twelve_requests_on_ten_slots() {
    let mut p = two_workers_ten_slots();
    let mut accepted = 0;
    let mut rejected = 0;
    for i in 0..12u32 {
        match p.handle_request(Some(job("SSH", i))) {
            Response::Accepted => accepted += 1,
            Response::Rejected => {
                rejected += 1;
                assert!(Response::Rejected.body().contains("Server Busy"));
            }
            Response::Error => panic!("valid payload answered with an error"),
        }
    }
    assert_eq!(accepted, 10);
    assert_eq!(rejected, 2);
    assert_eq!(p.occupancy(), 10);
}

#[test]
fn malformed_payload_leaves_queue_alone() {
    let mut p = two_workers_ten_slots();
    assert_eq!(p.handle_request(Some(job("Serial", 1))), Response::Accepted);
    assert_eq!(p.handle_request(None), Response::Error);
    assert_eq!(p.occupancy(), 1);
}

#[test]
fn workers_receive_jobs_in_order() {
    let mut p = two_workers_ten_slots();
    for i in 0..3u32 {
        assert_eq!(p.handle_request(Some(job("Telnet", i))), Response::Accepted);
    }
    for i in 0..3u32 {
        match p.next_job() {
            Dequeued::Job(j) => assert_eq!(j.params[0], i.to_string()),
            _ => panic!("a queued job is missing"),
        }
    }
    assert!(matches!(p.next_job(), Dequeued::Empty));
    p.close();
    assert!(matches!(p.next_job(), Dequeued::Closed));
    assert_eq!(p.handle_request(Some(job("SSH", 9))), Response::Rejected);
}

#[test]
fn response_bodies() {
    assert_eq!(Response::Accepted.body(), "{\"status\": \"Accepted\"}");
    assert_eq!(
        Response::Rejected.body(),
        "{\"status\": \"Rejected\", \"reason\": \"Server Busy\"}"
    );
    assert_eq!(Response::Error.body(), "{\"status\": \"Error\", \"reason\": \"Invalid JSON\"}");
}

#[test]
fn oversized_plan_is_refused() {
    assert!(SystemProtector::new(usize::MAX, u64::MAX, ServiceTime::from_millis(1).unwrap()).is_none());
}
