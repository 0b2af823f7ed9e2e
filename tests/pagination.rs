use inoutflow::error::AppError;
use inoutflow::pagination::{PageReply, PageResult, Pager, PagerStep, TransactionResponse};

fn page(items: Vec<u32>) -> PageReply<u32> {
    PageReply::Received {
        http_status: 200,
        body: Some(TransactionResponse {
            status: "1".to_string(),
            message: "OK".to_string(),
            result: PageResult::Success(items),
        }),
    }
}

fn failure(message: &str) -> PageReply<u32> {
    PageReply::Received {
        http_status: 200,
        body: Some(TransactionResponse {
            status: "0".to_string(),
            message: message.to_string(),
            result: PageResult::Failed(Some("[]".to_string())),
        }),
    }
}

fn numbered(start: u32, n: u32) -> Vec<u32> {
    (start..start + n).collect()
}

/// Runs the pager against canned replies, one per requested page, and
/// returns the pages requested, the final step and the records or error.
fn run(
    page_size: usize,
    cap: usize,
    mut replies: Vec<PageReply<u32>>,
) -> (Vec<usize>, Option<PagerStep>, Result<Vec<u32>, AppError>) {
    replies.reverse();
    let mut pager: Pager<u32> = Pager::new(page_size, cap);
    let mut requested = Vec::new();
    loop {
        match pager.next_step() {
            PagerStep::Fetch(n) => {
                requested.push(n);
                let reply = replies.pop().expect("more pages requested than served");
                if let Err(e) = pager.on_reply(reply) {
                    return (requested, None, Err(e));
                }
            }
            step => return (requested, Some(step), Ok(pager.into_records())),
        }
    }
}

#[test]
fn three_records_take_one_request() {
    let (requested, step, records) = run(1000, 10_000, vec![page(vec![7, 8, 9])]);
    assert_eq!(requested, vec![1]);
    assert_eq!(step, Some(PagerStep::Complete));
    assert_eq!(records.unwrap(), vec![7, 8, 9]);
}

#[test]
fn two_full_pages_then_a_short_one() {
    let replies = vec![page(numbered(0, 1000)), page(numbered(1000, 1000)), page(numbered(2000, 500))];
    let (requested, step, records) = run(1000, 10_000, replies);
    assert_eq!(requested, vec![1, 2, 3]);
    assert_eq!(step, Some(PagerStep::Complete));
    let records = records.unwrap();
    assert_eq!(records.len(), 2500);
    assert_eq!(records, numbered(0, 2500));
}

#[test]
fn full_page_requests_the_next() {
    let replies = vec![page(numbered(0, 2)), page(numbered(2, 2)), page(vec![])];
    let (requested, step, records) = run(2, 100, replies);
    assert_eq!(requested, vec![1, 2, 3]);
    assert_eq!(step, Some(PagerStep::Complete));
    assert_eq!(records.unwrap(), vec![0, 1, 2, 3]);
}

#[test]
fn results_cap_stops_full_pages() {
    let replies: Vec<PageReply<u32>> = (0..5).map(|i| page(numbered(i * 2000, 2000))).collect();
    let (requested, step, records) = run(2000, 10_000, replies);
    assert_eq!(requested, vec![1, 2, 3, 4, 5]);
    assert_eq!(step, Some(PagerStep::Truncated));
    assert_eq!(records.unwrap().len(), 10_000);
}

#[test]
fn short_page_ends_pagination() {
    let (requested, step, records) = run(4, 100, vec![page(vec![1]), page(vec![2])]);
    assert_eq!(requested, vec![1]);
    assert_eq!(step, Some(PagerStep::Complete));
    assert_eq!(records.unwrap(), vec![1]);
}

#[test]
fn empty_page_adds_nothing_and_ends() {
    let (requested, step, records) = run(3, 100, vec![page(vec![1, 2, 3]), page(vec![]), page(vec![9])]);
    assert_eq!(requested, vec![1, 2]);
    assert_eq!(step, Some(PagerStep::Complete));
    assert_eq!(records.unwrap(), vec![1, 2, 3]);
}

#[test]
fn no_transactions_found_is_empty_result() {
    let (requested, step, records) = run(1000, 10_000, vec![failure("No transactions found")]);
    assert_eq!(requested, vec![1]);
    assert_eq!(step, Some(PagerStep::Complete));
    assert_eq!(records.unwrap(), Vec::<u32>::new());
}

#[test]
fn no_transactions_found_after_pages_keeps_them() {
    let (_, step, records) = run(2, 100, vec![page(vec![1, 2]), failure("No transactions found")]);
    assert_eq!(step, Some(PagerStep::Complete));
    assert_eq!(records.unwrap(), vec![1, 2]);
}

#[test]
fn other_failure_message_is_api_error() {
    let (_, _, records) = run(1000, 10_000, vec![failure("Max rate limit reached")]);
    assert_eq!(records, Err(AppError::ErrorApiResponse("Max rate limit reached".to_string())));
}

#[test]
fn message_close_to_sentinel_is_still_error() {
    let (_, _, records) = run(1000, 10_000, vec![failure("No transactions found.")]);
    assert_eq!(records, Err(AppError::ErrorApiResponse("No transactions found.".to_string())));
}

#[test]
fn send_failure_is_transport_error() {
    let (_, _, records) = run(10, 100, vec![PageReply::SendFailed]);
    assert_eq!(records, Err(AppError::ErrorSendingHttpRequest));
}

#[test]
fn http_status_other_than_200_is_error() {
    let reply = PageReply::Received { http_status: 503, body: None };
    let (_, _, records) = run(10, 100, vec![reply]);
    assert_eq!(records, Err(AppError::ErrorHttpStatus(503)));
}

#[test]
fn undecodable_body_is_json_error() {
    let reply = PageReply::Received { http_status: 200, body: None };
    let (_, _, records) = run(10, 100, vec![reply]);
    assert_eq!(records, Err(AppError::ErrorJsonParsing));
}

#[test]
fn failure_shape_with_success_status_is_error() {
    let reply = PageReply::Received {
        http_status: 200,
        body: Some(TransactionResponse {
            status: "1".to_string(),
            message: "OK".to_string(),
            result: PageResult::Failed(Some("odd".to_string())),
        }),
    };
    let (_, _, records) = run(10, 100, vec![reply]);
    assert_eq!(records, Err(AppError::ErrorUnexpectedResult(Some("odd".to_string()))));
}

#[test]
fn error_after_pages_drops_nothing_silently() {
    let (requested, _, records) = run(2, 100, vec![page(vec![1, 2]), PageReply::SendFailed]);
    assert_eq!(requested, vec![1, 2]);
    assert_eq!(records, Err(AppError::ErrorSendingHttpRequest));
}

#[test]
fn cap_below_first_page_requests_nothing() {
    let (requested, step, records) = run(2000, 1000, vec![]);
    assert_eq!(requested, Vec::<usize>::new());
    assert_eq!(step, Some(PagerStep::Truncated));
    assert_eq!(records.unwrap(), Vec::<u32>::new());
}
