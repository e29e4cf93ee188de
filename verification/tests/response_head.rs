use stream_fetch::cache::StagedFile;
use stream_fetch::error::DownloadError;
use stream_fetch::response::{expected_size, plan, Plan, ResponseHead};

#[test]
fn ok_status_with_length_gives_the_size() {
    let head = ResponseHead { status: 200, content_length: Some(1000) };
    assert_eq!(expected_size(&head), Ok(1000));
}

#[test]
fn every_status_in_the_success_range_is_accepted() {
    for status in [200u16, 201, 204, 206, 226, 299] {
        let head = ResponseHead { status, content_length: Some(7) };
        assert_eq!(expected_size(&head), Ok(7));
    }
}

#[test]
fn statuses_outside_the_success_range_are_transport_errors() {
    for status in [0u16, 100, 199, 300, 301, 304, 404, 500, 503, u16::MAX] {
        let head = ResponseHead { status, content_length: Some(7) };
        assert_eq!(expected_size(&head), Err(DownloadError::Transport));
    }
}

#[test]
fn missing_length_is_rejected() {
    let head = ResponseHead { status: 200, content_length: None };
    assert_eq!(expected_size(&head), Err(DownloadError::MissingSize));
}

#[test]
fn bad_status_wins_over_missing_length() {
    let head = ResponseHead { status: 404, content_length: None };
    assert_eq!(expected_size(&head), Err(DownloadError::Transport));
}

#[test]
fn zero_length_is_a_known_size() {
    let head = ResponseHead { status: 200, content_length: Some(0) };
    assert_eq!(expected_size(&head), Ok(0));
}

#[test]
fn plan_reuses_a_staged_file_of_the_announced_size() {
    let head = ResponseHead { status: 200, content_length: Some(100) };
    assert_eq!(plan(&head, StagedFile::Present { size: 100 }), Ok(Plan::Reuse));
}

#[test]
fn plan_fetches_when_the_staged_file_differs() {
    let head = ResponseHead { status: 200, content_length: Some(100) };
    assert_eq!(plan(&head, StagedFile::Present { size: 99 }), Ok(Plan::Fetch { expected: 100 }));
    assert_eq!(plan(&head, StagedFile::Absent), Ok(Plan::Fetch { expected: 100 }));
    assert_eq!(plan(&head, StagedFile::Unreadable), Ok(Plan::Fetch { expected: 100 }));
}

#[test]
fn plan_fails_before_fetching_when_length_is_missing() {
    let head = ResponseHead { status: 200, content_length: None };
    assert_eq!(plan(&head, StagedFile::Absent), Err(DownloadError::MissingSize));
    assert_eq!(plan(&head, StagedFile::Present { size: 0 }), Err(DownloadError::MissingSize));
}

#[test]
fn plan_fails_on_bad_status_even_with_a_matching_staged_file() {
    let head = ResponseHead { status: 500, content_length: Some(100) };
    assert_eq!(plan(&head, StagedFile::Present { size: 100 }), Err(DownloadError::Transport));
}
