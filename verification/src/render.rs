//! The lines that the client prints for a batch of notifications.

use vstd::prelude::*;
use crate::decimal::{decimal, push_decimal};
use crate::kinds::{EventResource, UpdateType};
use crate::message::{string_views, Notification, NotificationBatch, NotificationBatchView, NotificationView};
use crate::timestamp::Timestamp;

verus! {

/// Why a notification has no printed line.
#[derive(Clone, Copy, Debug, PartialEq, Eq, Structural)]
pub enum RenderError {
    /// The notification carries no message.
    MissingMessage,
    /// The timestamp names no calendar date and time of day.
    InvalidTimestamp,
    /// No kind of resource has the code that the message carries.
    UnknownResource,
    /// No kind of change has the code that the message carries.
    UnknownUpdateType,
}

/// The line that announces a batch of `count` notifications.
pub open spec fn spec_batch_header(count: nat) -> Seq<char> {
    "Received chunk of "@ + decimal(count) + " notifications."@
}

/// The printed form of a value that may be absent, given the printed form of
/// the value itself.
pub open spec fn spec_optional_text(inner: Option<Seq<char>>) -> Seq<char> {
    match inner {
        Some(text) => "Some("@ + text + ")"@,
        None => "None"@,
    }
}

/// The printed form of a timestamp that may be absent.
pub open spec fn spec_timestamp_text(timestamp: Option<Timestamp>) -> Seq<char> {
    spec_optional_text(
        match timestamp {
            Some(t) => Some(t.text()),
            None => None,
        },
    )
}

/// The line of one notification, given the printed form of its timestamp.
pub open spec fn spec_compose_line(
    sequence: nat,
    when: Seq<char>,
    resource: EventResource,
    resource_id: Seq<char>,
    update: UpdateType,
) -> Seq<char> {
    "Received notification: "@ + decimal(sequence) + " at "@ + when + " for "@
        + resource.spec_name() + " ("@ + resource_id + "): "@ + update.spec_name()
}

/// Why `n` has no printed line, or `None` if it has one. Where several
/// reasons hold, the missing message comes before the timestamp, the
/// timestamp before the resource, and the resource before the change.
pub open spec fn spec_failure(n: NotificationView) -> Option<RenderError> {
    match n.message {
        None => Some(RenderError::MissingMessage),
        Some(m) => {
            if n.timestamp matches Some(t) && !t.valid() {
                Some(RenderError::InvalidTimestamp)
            } else if EventResource::spec_from_code(m.resource) is None {
                Some(RenderError::UnknownResource)
            } else if UpdateType::spec_from_code(m.updated_type) is None {
                Some(RenderError::UnknownUpdateType)
            } else {
                None
            }
        },
    }
}

/// The printed line of `n`, where it has one.
pub open spec fn spec_line(n: NotificationView) -> Seq<char>
    recommends
        spec_failure(n) is None,
{
    let m = n.message.unwrap();
    spec_compose_line(
        n.sequence,
        spec_timestamp_text(n.timestamp),
        EventResource::spec_from_code(m.resource).unwrap(),
        m.resource_id,
        UpdateType::spec_from_code(m.updated_type).unwrap(),
    )
}

/// How many notifications at the head of `ns` have a printed line: the index
/// of the first one that has none, or the length of `ns`.
pub open spec fn printable_prefix(ns: Seq<NotificationView>) -> nat
    decreases ns.len(),
{
    if ns.len() == 0 {
        0
    } else {
        let k = printable_prefix(ns.drop_last());
        if k == ns.len() - 1 && spec_failure(ns.last()) is None {
            ns.len()
        } else {
            k
        }
    }
}

/// What is printed for a batch, and why printing stopped if it did.
#[derive(Clone, Debug, PartialEq, Eq)]
pub struct Rendering {
    pub lines: Vec<String>,
    pub failure: Option<RenderError>,
}

pub struct RenderingView {
    pub lines: Seq<Seq<char>>,
    pub failure: Option<RenderError>,
}

impl View for Rendering {
    type V = RenderingView;

    open spec fn view(&self) -> RenderingView {
        RenderingView { lines: string_views(self.lines@), failure: self.failure }
    }
}

/// The header line and the lines of the first `k` notifications of `ns`.
pub open spec fn spec_lines(ns: Seq<NotificationView>, k: nat) -> Seq<Seq<char>> {
    seq![spec_batch_header(ns.len())] + Seq::new(k, |j: int| spec_line(ns[j]))
}

/// What is printed for `batch`: the header, then the line of each
/// notification up to the first that has none, which is the failure.
pub open spec fn spec_render_batch(batch: NotificationBatchView) -> RenderingView {
    let ns = batch.notifications;
    let k = printable_prefix(ns);
    RenderingView {
        lines: spec_lines(ns, k),
        failure: if k < ns.len() {
            spec_failure(ns[k as int])
        } else {
            None
        },
    }
}

/// `printable_prefix` is the index of the first notification without a
/// printed line, or the length of the sequence: it stays within the sequence,
/// every notification before it has a line, and the one at it, if there is
/// one, has none.
pub proof fn printable_prefix_is_first_failure(ns: Seq<NotificationView>)
    ensures
        printable_prefix(ns) <= ns.len(),
        forall|j: int| 0 <= j < printable_prefix(ns) ==> spec_failure(#[trigger] ns[j]) is None,
        printable_prefix(ns) < ns.len() ==> spec_failure(ns[printable_prefix(ns) as int]) is Some,
    decreases ns.len(),
{
    if ns.len() > 0 {
        let head = ns.drop_last();
        printable_prefix_is_first_failure(head);
        assert forall|j: int| 0 <= j < printable_prefix(ns) implies spec_failure(
            #[trigger] ns[j],
        ) is None by {
            if j < head.len() {
                assert(head[j] == ns[j]);
            }
        }
        if printable_prefix(ns) < head.len() {
            assert(head[printable_prefix(ns) as int] == ns[printable_prefix(ns) as int]);
        }
    }
}

/// Once a notification without a printed line has been met, nothing that
/// follows it extends the prefix.
proof fn lemma_prefix_stops(ns: Seq<NotificationView>, i: int, j: int)
    requires
        0 <= i < j <= ns.len(),
        printable_prefix(ns.take(i)) == i,
        spec_failure(ns[i]) is Some,
    ensures
        printable_prefix(ns.take(j)) == i,
    decreases j - i,
{
    assert(ns.take(j).drop_last() =~= ns.take(j - 1));
    if j > i + 1 {
        lemma_prefix_stops(ns, i, j - 1);
    }
}

/// The line that announces a batch of `count` notifications.
pub fn batch_header(count: usize) -> (s: String)
    ensures
        s@ == spec_batch_header(count as nat),
{
    let mut s = String::from_str("Received chunk of ");
    push_decimal(&mut s, count as u64);
    s.append(" notifications.");
    s
}

/// The printed form of a value that may be absent, given the printed form of
/// the value itself.
pub fn optional_text(inner: Option<String>) -> (s: String)
    ensures
        s@ == spec_optional_text(
            match inner {
                Some(text) => Some(text@),
                None => None,
            },
        ),
{
    match inner {
        Some(text) => {
            let mut s = String::from_str("Some(");
            s.append(text.as_str());
            s.append(")");
            s
        },
        None => String::from_str("None"),
    }
}

/// The line of one notification, given the printed form of its timestamp.
pub fn compose_line(
    sequence: u64,
    when: &str,
    resource: EventResource,
    resource_id: &str,
    update: UpdateType,
) -> (s: String)
    ensures
        s@ == spec_compose_line(sequence as nat, when@, resource, resource_id@, update),
{
    let mut s = String::from_str("Received notification: ");
    push_decimal(&mut s, sequence);
    s.append(" at ");
    s.append(when);
    s.append(" for ");
    s.append(resource.name());
    s.append(" (");
    s.append(resource_id);
    s.append("): ");
    s.append(update.name());
    s
}

/// The printed line of a notification, or the reason why it has none.
pub fn notification_line(n: &Notification) -> (r: Result<String, RenderError>)
    ensures
        match r {
            Ok(s) => spec_failure(n@) is None && s@ == spec_line(n@),
            Err(e) => spec_failure(n@) == Some(e),
        },
{
    let m = match &n.message {
        Some(m) => m,
        None => {
            return Err(RenderError::MissingMessage);
        },
    };
    let when = match &n.timestamp {
        Some(t) => match t.render() {
            Some(text) => optional_text(Some(text)),
            None => {
                return Err(RenderError::InvalidTimestamp);
            },
        },
        None => optional_text(None),
    };
    let resource = match EventResource::from_code(m.resource) {
        Some(k) => k,
        None => {
            return Err(RenderError::UnknownResource);
        },
    };
    let update = match UpdateType::from_code(m.updated_type) {
        Some(k) => k,
        None => {
            return Err(RenderError::UnknownUpdateType);
        },
    };
    Ok(compose_line(n.sequence, when.as_str(), resource, m.resource_id.as_str(), update))
}

/// What is printed for a batch: the header, then the line of each
/// notification up to the first that has none.
pub fn render_batch(batch: &NotificationBatch) -> (r: Rendering)
    ensures
        r@ == spec_render_batch(batch@),
{
    let ghost ns = batch@.notifications;
    let count = batch.notifications.len();
    let mut lines: Vec<String> = Vec::new();
    lines.push(batch_header(count));
    assert(string_views(lines@) =~= spec_lines(ns, 0));
    let mut i: usize = 0;
    while i < count
        invariant
            ns == batch@.notifications,
            count == batch.notifications.len(),
            i <= count,
            printable_prefix(ns.take(i as int)) == i,
            string_views(lines@) == spec_lines(ns, i as nat),
        decreases count - i,
    {
        assert(ns[i as int] == batch.notifications@[i as int]@);
        assert(ns.take(i + 1).drop_last() =~= ns.take(i as int));
        match notification_line(&batch.notifications[i]) {
            Ok(line) => {
                let ghost before = lines@;
                lines.push(line);
                proof {
                    let now = string_views(lines@);
                    let then = string_views(before);
                    let goal = spec_lines(ns, (i + 1) as nat);
                    assert(then.len() == i + 1);
                    assert(goal.len() == i + 2);
                    assert forall|j: int| 0 <= j < now.len() implies now[j] == goal[j] by {
                        if j <= i {
                            assert(now[j] == then[j]);
                        }
                    }
                    assert(now =~= goal);
                }
            },
            Err(e) => {
                proof {
                    lemma_prefix_stops(ns, i as int, ns.len() as int);
                    assert(ns.take(ns.len() as int) =~= ns);
                }
                return Rendering { lines, failure: Some(e) };
            },
        }
        i += 1;
    }
    proof {
        assert(ns.take(i as int) =~= ns);
    }
    Rendering { lines, failure: None }
}

} // verus!
