use dot4ch::text::push_decimal;
use dot4ch::Error;

#[test]
fn decimal_of_small_and_large_numbers() {
    for (n, text) in [
        (0u64, "0"),
        (7, "7"),
        (10, "10"),
        (570368, "570368"),
        (u32::MAX as u64, "4294967295"),
        (u64::MAX, "18446744073709551615"),
    ] {
        let mut out = String::from("n=");
        push_decimal(&mut out, n);
        assert_eq!(out, format!("n={}", text));
    }
}

#[test]
fn message_of_each_error() {
    assert_eq!(Error::Http("timed out".to_string()).message(), "request failed: timed out");
    assert_eq!(
        Error::Parse("expected value".to_string()).message(),
        "failed to parse response: expected value"
    );
    assert_eq!(Error::UnexpectedStatus(404).message(), "unexpected status: 404");
    assert_eq!(Error::MissingHeader("last-modified").message(), "missing header: last-modified");
    assert_eq!(Error::RateLimit.message(), "rate limit error: semaphore closed");
    assert_eq!(Error::NotModified.message(), "not modified");
    assert_eq!(Error::Overflow.message(), "overflow in the cooldown wait");
}

#[test]
fn archived_message_names_the_calendar_time() {
    assert_eq!(
        Error::Archived { thread: 570368, time: Some(0) }.message(),
        "thread 570368 is archived, archived at Thu, 01 Jan 1970 00:00:00"
    );
    assert_eq!(
        Error::Archived { thread: 1, time: Some(1431648000) }.message(),
        "thread 1 is archived, archived at Fri, 15 May 2015 00:00:00"
    );
    assert_eq!(
        Error::Archived { thread: 1, time: Some(1445412480) }.message(),
        "thread 1 is archived, archived at Wed, 21 Oct 2015 07:28:00"
    );
}

#[test]
fn archived_message_without_a_usable_time() {
    assert_eq!(
        Error::Archived { thread: 2, time: None }.message(),
        "thread 2 is archived, archived at an unknown time"
    );
    assert_eq!(
        Error::Archived { thread: 2, time: Some(u64::MAX) }.message(),
        "thread 2 is archived, archived at an unknown time"
    );
    assert_eq!(
        Error::Archived { thread: 2, time: Some(i64::MAX as u64) }.message(),
        "thread 2 is archived, archived at an unknown time"
    );
}
