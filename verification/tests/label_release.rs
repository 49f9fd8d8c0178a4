use webview_recovery::label_release::{
    LabelRelease, ReleasePoll, LABEL_RELEASE_POLL, LABEL_RELEASE_TIMEOUT,
};

const SECOND: u64 = 1_000_000_000;

#[test]
fn a_wait_lasts_two_seconds_in_steps_of_ten_milliseconds() {
    assert_eq!(LABEL_RELEASE_TIMEOUT, 2 * SECOND);
    assert_eq!(LABEL_RELEASE_POLL, SECOND / 100);
    let wait = LabelRelease::after_destroy(&Ok(()), 5 * SECOND);
    assert_eq!(wait.deadline, 7 * SECOND);
}

#[test]
fn a_destroy_error_does_not_shorten_the_wait() {
    let failed = LabelRelease::after_destroy(&Err("gone".to_string()), 5 * SECOND);
    assert_eq!(failed, LabelRelease::after_destroy(&Ok(()), 5 * SECOND));
}

#[test]
fn a_free_label_ends_the_wait_even_past_the_deadline() {
    let wait = LabelRelease::after_destroy(&Ok(()), 0);
    assert_eq!(wait.poll("main", false, 0), ReleasePoll::Released);
    assert_eq!(wait.poll("main", false, 3 * SECOND), ReleasePoll::Released);
}

#[test]
fn a_taken_label_is_polled_until_the_deadline() {
    let wait = LabelRelease::after_destroy(&Ok(()), 0);
    assert_eq!(wait.poll("main", true, 0), ReleasePoll::Sleep(10_000_000));
    assert_eq!(
        wait.poll("main", true, 2 * SECOND - 1),
        ReleasePoll::Sleep(10_000_000)
    );
    assert_eq!(
        wait.poll("main", true, 2 * SECOND),
        ReleasePoll::TimedOut("window `main` did not release its label after destroy".to_string())
    );
    assert_eq!(
        wait.poll("settings", true, 9 * SECOND),
        ReleasePoll::TimedOut(
            "window `settings` did not release its label after destroy".to_string()
        )
    );
}

#[test]
fn a_label_that_stays_taken_is_given_up_after_two_hundred_sleeps() {
    let wait = LabelRelease::after_destroy(&Ok(()), 0);
    let mut now = 0;
    let mut sleeps = 0;
    loop {
        match wait.poll("flyout", true, now) {
            ReleasePoll::Sleep(time) => {
                now += time;
                sleeps += 1;
            }
            ReleasePoll::TimedOut(_) => break,
            ReleasePoll::Released => panic!("the label is taken"),
        }
    }
    assert_eq!(sleeps, 200);
}
