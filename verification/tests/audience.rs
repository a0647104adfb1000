use reestream::server::chat::chat_csv;
use reestream::server::audience::{message_analytics, peak_time, viewer_analytics, watched_time};
use reestream::server::restream::{AnalyticsReport, ChatMessage, DestinationAnalytics, EventStatus, ViewerSample};

fn sample(timestamp: u64, viewers: u32) -> ViewerSample {
    ViewerSample { event_id: "e1".to_string(), timestamp, viewers, bitrate_kbps: 0 }
}

fn message(author: &str, author_id: Option<&str>, destination: Option<&str>, created_at: u64) -> ChatMessage {
    ChatMessage {
        id: format!("m{created_at}"),
        event_id: "e1".to_string(),
        destination_id: destination.map(str::to_string),
        author_name: author.to_string(),
        author_id: author_id.map(str::to_string),
        message: "hi".to_string(),
        kind: "message".to_string(),
        reply_to: None,
        created_at,
        deleted: false,
    }
}

#[test]
fn peak_time_is_the_last_sample_with_the_most_viewers() {
    assert_eq!(peak_time(&Vec::new()), None);
    let samples = vec![sample(10, 3), sample(20, 7), sample(30, 7), sample(40, 2)];
    assert_eq!(peak_time(&samples), Some(30));
}

#[test]
fn watched_time_saturates() {
    assert_eq!(watched_time(600, 4), 2400);
    assert_eq!(watched_time(u64::MAX, 2), u64::MAX);
}

#[test]
fn viewer_analytics_per_channel() {
    let report = AnalyticsReport {
        event_id: "e1".to_string(),
        title: "Show".to_string(),
        status: EventStatus::Ended,
        views: 42,
        peak_concurrent_viewers: 9,
        average_concurrent_viewers: 5,
        chat_messages: 0,
        duration_seconds: 100,
        destinations: vec![
            DestinationAnalytics { destination_id: "yt".to_string(), views: 1, peak_viewers: 12, status: "live".to_string() },
            DestinationAnalytics { destination_id: "tw".to_string(), views: 1, peak_viewers: 3, status: "live".to_string() },
        ],
        timeseries: vec![sample(10, 4), sample(70, 9)],
    };
    let a = viewer_analytics(&report);
    assert_eq!(a.total.mean, 5);
    assert_eq!(a.total.max, 9);
    assert_eq!(a.total.views_total, 42);
    assert_eq!(a.total.peak_time, Some(70));
    assert_eq!(a.total.watched_time, 500);
    assert_eq!(a.total.viewers_per_minute, vec![(10, 4), (70, 9)]);
    assert_eq!(a.by_channel.len(), 2);
    assert_eq!(a.by_channel[0].channel_id, "yt");
    assert_eq!(a.by_channel[0].figures.max, 12);
    assert_eq!(a.by_channel[1].channel_id, "tw");
    assert_eq!(a.by_channel[1].figures.max, 9);
}

#[test]
fn message_analytics_counts_minutes_channels_and_people() {
    let messages = vec![
        message("Ann", Some("a1"), Some("yt"), 125),
        message("Bob", None, None, 61),
        message("Ann again", Some("a1"), Some("tw"), 130),
        message("Bob", None, Some("yt"), 5),
    ];
    let a = message_analytics(&messages);
    assert_eq!(a.messages_total, 4);
    assert_eq!(a.chatters_total, 2);
    assert_eq!(a.messages_per_minute, vec![(0, 1), (60, 1), (120, 2)]);
    let channels: Vec<(String, u64, u64)> = a
        .by_channel
        .iter()
        .map(|c| (c.channel_id.clone(), c.messages_total, c.chatters_total))
        .collect();
    assert_eq!(
        channels,
        vec![
            ("tw".to_string(), 1, 1),
            ("unified".to_string(), 1, 1),
            ("yt".to_string(), 2, 2),
        ]
    );
}

#[test]
fn message_analytics_of_no_messages() {
    let a = message_analytics(&Vec::new());
    assert_eq!(a.messages_total, 0);
    assert_eq!(a.chatters_total, 0);
    assert!(a.messages_per_minute.is_empty());
    assert!(a.by_channel.is_empty());
}

#[test]
fn chat_export_quotes_cells_that_need_it() {
    let mut quoted = message("Smith, Jo", None, Some("yt"), 90);
    quoted.message = "say \"hi\"".to_string();
    let plain = message("Bob", None, None, 5);
    let csv = chat_csv(&vec![quoted, plain]);
    assert_eq!(
        csv,
        "id,eventId,destinationId,authorName,message,createdAt\n\
         m90,e1,yt,\"Smith, Jo\",\"say \"\"hi\"\"\",90\n\
         m5,e1,,Bob,hi,5\n"
    );
    assert_eq!(chat_csv(&Vec::new()), "id,eventId,destinationId,authorName,message,createdAt\n");
}
