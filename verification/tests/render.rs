use notification_client::kinds::{EventResource, UpdateType};
use notification_client::message::{EventMessage, Notification, NotificationBatch};
use notification_client::render::{
    batch_header, compose_line, notification_line, optional_text, render_batch, RenderError,
    Rendering,
};
use notification_client::timestamp::{Timestamp, MAX_SECONDS};

fn message(resource: i32, resource_id: &str, updated_type: i32) -> Option<EventMessage> {
    Some(EventMessage { resource, resource_id: resource_id.to_string(), updated_type })
}

fn notification(sequence: u64, seconds: i64, resource: i32, id: &str, update: i32) -> Notification {
    Notification {
        message: message(resource, id, update),
        sequence,
        timestamp: Some(Timestamp { seconds, nanos: 0 }),
    }
}

#[test]
fn header_counts_the_notifications() {
    assert_eq!(batch_header(0), "Received chunk of 0 notifications.");
    assert_eq!(batch_header(1), "Received chunk of 1 notifications.");
    assert_eq!(batch_header(250), "Received chunk of 250 notifications.");
}

#[test]
fn optional_text_wraps_what_is_there() {
    assert_eq!(optional_text(None), "None");
    assert_eq!(optional_text(Some("x".to_string())), "Some(x)");
    assert_eq!(optional_text(Some(String::new())), "Some()");
}

#[test]
fn composed_line_has_every_part_in_place() {
    let line = compose_line(
        17,
        "Some(2021-09-07T12:00:00)",
        EventResource::Dataset,
        "dataset-1",
        UpdateType::MetadataUpdated,
    );
    assert_eq!(
        line,
        "Received notification: 17 at Some(2021-09-07T12:00:00) for Dataset (dataset-1): MetadataUpdated"
    );
}

#[test]
fn composed_line_with_empty_parts() {
    let line = compose_line(0, "", EventResource::All, "", UpdateType::Unspecified);
    assert_eq!(line, "Received notification: 0 at  for All (): Unspecified");
}

#[test]
fn line_of_a_notification() {
    let n = notification(42, 1_631_016_000, 1, "project-7", 1);
    assert_eq!(
        notification_line(&n),
        Ok("Received notification: 42 at Some(2021-09-07T12:00:00) for Project (project-7): Created"
            .to_string())
    );
}

#[test]
fn line_without_timestamp() {
    let n = Notification { message: message(4, "og", 5), sequence: 3, timestamp: None };
    assert_eq!(
        notification_line(&n),
        Ok("Received notification: 3 at None for ObjectGroup (og): Deleted".to_string())
    );
}

#[test]
fn line_with_fraction_of_a_second() {
    let n = Notification {
        message: message(5, "any", 2),
        sequence: u64::MAX,
        timestamp: Some(Timestamp { seconds: 0, nanos: 250_000_000 }),
    };
    assert_eq!(
        notification_line(&n),
        Ok("Received notification: 18446744073709551615 at Some(1970-01-01T00:00:00.250) for All (any): Available"
            .to_string())
    );
}

#[test]
fn line_names_every_resource_and_change() {
    let resources = ["Unspecified", "Project", "Dataset", "DatasetVersion", "ObjectGroup", "All"];
    let changes = ["Unspecified", "Created", "Available", "Updated", "MetadataUpdated", "Deleted"];
    for r in 0..6 {
        for c in 0..6 {
            let n = notification(1, 0, r as i32, "id", c as i32);
            let expected = format!(
                "Received notification: 1 at Some(1970-01-01T00:00:00) for {} (id): {}",
                resources[r], changes[c]
            );
            assert_eq!(notification_line(&n), Ok(expected));
        }
    }
}

#[test]
fn missing_message_is_an_error() {
    let n = Notification { message: None, sequence: 1, timestamp: None };
    assert_eq!(notification_line(&n), Err(RenderError::MissingMessage));
}

#[test]
fn invalid_timestamp_is_an_error() {
    let mut n = notification(1, MAX_SECONDS + 1, 1, "p", 1);
    assert_eq!(notification_line(&n), Err(RenderError::InvalidTimestamp));
    n.timestamp = Some(Timestamp { seconds: 0, nanos: -5 });
    assert_eq!(notification_line(&n), Err(RenderError::InvalidTimestamp));
}

#[test]
fn unknown_resource_is_an_error() {
    assert_eq!(notification_line(&notification(1, 0, 6, "p", 1)), Err(RenderError::UnknownResource));
    assert_eq!(notification_line(&notification(1, 0, -1, "p", 1)), Err(RenderError::UnknownResource));
}

#[test]
fn unknown_update_type_is_an_error() {
    assert_eq!(
        notification_line(&notification(1, 0, 1, "p", 6)),
        Err(RenderError::UnknownUpdateType)
    );
}

#[test]
fn errors_come_in_a_fixed_order() {
    let everything_wrong =
        Notification { message: None, sequence: 1, timestamp: Some(Timestamp { seconds: 0, nanos: -1 }) };
    assert_eq!(notification_line(&everything_wrong), Err(RenderError::MissingMessage));
    let mut n = notification(1, 0, 77, "p", 88);
    n.timestamp = Some(Timestamp { seconds: 0, nanos: -1 });
    assert_eq!(notification_line(&n), Err(RenderError::InvalidTimestamp));
    n.timestamp = None;
    assert_eq!(notification_line(&n), Err(RenderError::UnknownResource));
}

#[test]
fn empty_batch_prints_its_header() {
    let batch = NotificationBatch { notifications: vec![], ack_chunk_id: "a".to_string() };
    assert_eq!(
        render_batch(&batch),
        Rendering { lines: vec!["Received chunk of 0 notifications.".to_string()], failure: None }
    );
}

#[test]
fn batch_prints_header_and_every_line() {
    let batch = NotificationBatch {
        notifications: vec![notification(1, 0, 1, "p", 1), notification(2, 60, 2, "d", 3)],
        ack_chunk_id: "a".to_string(),
    };
    assert_eq!(
        render_batch(&batch),
        Rendering {
            lines: vec![
                "Received chunk of 2 notifications.".to_string(),
                "Received notification: 1 at Some(1970-01-01T00:00:00) for Project (p): Created"
                    .to_string(),
                "Received notification: 2 at Some(1970-01-01T00:01:00) for Dataset (d): Updated"
                    .to_string(),
            ],
            failure: None,
        }
    );
}

#[test]
fn batch_stops_at_the_first_notification_without_a_line() {
    let batch = NotificationBatch {
        notifications: vec![
            notification(1, 0, 1, "p", 1),
            notification(2, 0, 9, "q", 1),
            Notification { message: None, sequence: 3, timestamp: None },
            notification(4, 0, 1, "r", 1),
        ],
        ack_chunk_id: "a".to_string(),
    };
    assert_eq!(
        render_batch(&batch),
        Rendering {
            lines: vec![
                "Received chunk of 4 notifications.".to_string(),
                "Received notification: 1 at Some(1970-01-01T00:00:00) for Project (p): Created"
                    .to_string(),
            ],
            failure: Some(RenderError::UnknownResource),
        }
    );
}

#[test]
fn batch_that_fails_at_once_prints_only_its_header() {
    let batch = NotificationBatch {
        notifications: vec![Notification { message: None, sequence: 3, timestamp: None }],
        ack_chunk_id: "a".to_string(),
    };
    assert_eq!(
        render_batch(&batch),
        Rendering {
            lines: vec!["Received chunk of 1 notifications.".to_string()],
            failure: Some(RenderError::MissingMessage),
        }
    );
}
