//! What holds of every handling of a notification, whatever is observed.

use vstd::prelude::*;
use crate::linker::{Caps, Fault, Linker, Notice, Observation, Ports, Referents, Request};
use crate::media::{audio_prefix, kind_of, lemma_kinds_exclusive, video_prefix, MediaKind};

verus! {

/// The state that a linker reaches from `start` over the observations `seen`.
pub open spec fn run(start: Linker, seen: Seq<Observation>) -> Linker
    decreases seen.len(),
{
    if seen.len() == 0 {
        start
    } else {
        run(start.next(seen[0]).0, seen.drop_first())
    }
}

/// How many link requests a linker issues from `start` over `seen`.
pub open spec fn link_requests(start: Linker, seen: Seq<Observation>) -> nat
    decreases seen.len(),
{
    if seen.len() == 0 {
        0
    } else {
        let rest = link_requests(start.next(seen[0]).0, seen.drop_first());
        if start.attempts(seen[0]) {
            1 + rest
        } else {
            rest
        }
    }
}

/// The lines that a linker prints from `start` over `seen`, in order.
pub open spec fn notices(start: Linker, seen: Seq<Observation>) -> Seq<Notice>
    decreases seen.len(),
{
    if seen.len() == 0 {
        Seq::empty()
    } else {
        let rest = notices(start.next(seen[0]).0, seen.drop_first());
        match start.next(seen[0]).1 {
            Some(notice) => seq![notice] + rest,
            None => rest,
        }
    }
}

/// A finished linker stays as it is, requests no link and prints nothing,
/// whatever it is told afterwards.
pub proof fn lemma_finished_is_final(start: Linker, seen: Seq<Observation>)
    requires
        start is Done || start is Failed,
    ensures
        run(start, seen) == start,
        link_requests(start, seen) == 0,
        notices(start, seen) == Seq::<Notice>::empty(),
    decreases seen.len(),
{
    if seen.len() > 0 {
        lemma_finished_is_final(start, seen.drop_first());
    }
}

/// From a state in which the link was already requested, no further link
/// request follows.
proof fn lemma_no_second_request(start: Linker, seen: Seq<Observation>)
    requires
        start is Linking,
    ensures
        link_requests(start, seen) == 0,
    decreases seen.len(),
{
    if seen.len() > 0 {
        let after = start.next(seen[0]).0;
        if after is Linking {
            lemma_no_second_request(after, seen.drop_first());
        } else {
            lemma_finished_is_final(after, seen.drop_first());
        }
    }
}

/// One notification leads to at most one link request, from whatever state
/// and over whatever observations.
pub proof fn law_at_most_one_link_request(start: Linker, seen: Seq<Observation>)
    ensures
        link_requests(start, seen) <= 1,
    decreases seen.len(),
{
    if seen.len() > 0 {
        let after = start.next(seen[0]).0;
        if start.attempts(seen[0]) {
            lemma_no_second_request(after, seen.drop_first());
        } else {
            law_at_most_one_link_request(after, seen.drop_first());
        }
    }
}

/// Where a referent is gone when the handles are upgraded, the notification
/// is a no-operation: the linker is done at once, asks only to return,
/// meets no fault, requests no link and prints nothing, whatever follows.
pub proof fn law_dead_referent_is_no_operation(referents: Referents, later: Seq<Observation>)
    requires
        !referents.all_alive(),
    ensures
        Linker::Notified.next(Observation::Handles(referents)).0 == Linker::Done,
        Linker::Done.pending() == Request::Return,
        run(Linker::Notified, seq![Observation::Handles(referents)] + later) == Linker::Done,
        link_requests(Linker::Notified, seq![Observation::Handles(referents)] + later) == 0,
        notices(Linker::Notified, seq![Observation::Handles(referents)] + later)
            == Seq::<Notice>::empty(),
{
    let seen = seq![Observation::Handles(referents)] + later;
    assert(seen.drop_first() =~= later);
    lemma_finished_is_final(Linker::Done, later);
}

/// Where both converters are linked already, the notification ends with the
/// line that says so and no link is requested, whatever follows.
pub proof fn law_linked_ports_request_no_link(
    referents: Referents,
    ports: Ports,
    later: Seq<Observation>,
)
    requires
        referents.all_alive(),
        ports.saturated(),
    ensures
        run(
            Linker::Notified,
            seq![Observation::Handles(referents), Observation::Ports(ports)] + later,
        ) == Linker::Done,
        link_requests(
            Linker::Notified,
            seq![Observation::Handles(referents), Observation::Ports(ports)] + later,
        ) == 0,
        notices(
            Linker::Notified,
            seq![Observation::Handles(referents), Observation::Ports(ports)] + later,
        ) == seq![Notice::NewPort, Notice::AlreadyLinked],
{
    let seen = seq![Observation::Handles(referents), Observation::Ports(ports)] + later;
    let tail = seq![Observation::Ports(ports)] + later;
    assert(seen.drop_first() =~= tail);
    assert(tail.drop_first() =~= later);
    lemma_finished_is_final(Linker::Done, later);
    assert(run(Linker::Alive, tail) == run(Linker::Done, later));
    assert(run(Linker::Notified, seen) == run(Linker::Alive, tail));
    assert(link_requests(Linker::Alive, tail) == link_requests(Linker::Done, later));
    assert(link_requests(Linker::Notified, seen) == link_requests(Linker::Alive, tail));
    assert(notices(Linker::Alive, tail) =~= seq![Notice::AlreadyLinked]);
    assert(notices(Linker::Notified, seen) =~= seq![Notice::NewPort, Notice::AlreadyLinked]);
}

/// The converter is chosen by the media type's prefix alone: raw audio goes
/// to the audio converter, raw video to the video converter, and any other
/// type is a fault for which the process is ended.
pub proof fn law_converter_follows_prefix(name: String)
    ensures
        audio_prefix().is_prefix_of(name@) ==> Linker::Unlinked.next(
            Observation::Caps(Caps::Named(name)),
        ).0 == Linker::Linking(MediaKind::Audio),
        video_prefix().is_prefix_of(name@) ==> Linker::Unlinked.next(
            Observation::Caps(Caps::Named(name)),
        ).0 == Linker::Linking(MediaKind::Video),
        !audio_prefix().is_prefix_of(name@) && !video_prefix().is_prefix_of(name@)
            ==> Linker::Unlinked.next(Observation::Caps(Caps::Named(name))).0 == Linker::Failed(
            Fault::UnsupportedType,
        ),
        Linker::Linking(MediaKind::Audio).pending() == Request::Link(MediaKind::Audio),
        Linker::Linking(MediaKind::Video).pending() == Request::Link(MediaKind::Video),
        Linker::Failed(Fault::UnsupportedType).pending() == Request::Abort(Fault::UnsupportedType),
{
    lemma_kinds_exclusive(name@);
}

/// Everything that the framework shows to the handling of one notification.
pub struct Notification {
    pub referents: Referents,
    pub ports: Ports,
    pub caps: Caps,
    pub accepted: bool,
}

impl Notification {
    /// The observations of one handling, in the order in which they are
    /// asked for.
    pub open spec fn observations(self) -> Seq<Observation> {
        seq![
            Observation::Handles(self.referents),
            Observation::Ports(self.ports),
            Observation::Caps(self.caps),
            Observation::Linked(self.accepted),
        ]
    }
}

/// Whether the report shows the input port of the converter of this kind
/// as linked.
pub open spec fn shows_linked(ports: Ports, kind: MediaKind) -> bool {
    match kind {
        MediaKind::Audio => ports.audio == Some(true),
        MediaKind::Video => ports.video == Some(true),
    }
}

/// The converter that the handling of this notification links, if any: the
/// one that the linker requests a link to, where the framework accepts it.
pub open spec fn linked_by(notification: Notification) -> Option<MediaKind> {
    match run(
        Linker::Notified,
        seq![
            Observation::Handles(notification.referents),
            Observation::Ports(notification.ports),
            Observation::Caps(notification.caps),
        ],
    ) {
        Linker::Linking(kind) => if notification.accepted {
            Some(kind)
        } else {
            None
        },
        _ => None,
    }
}

/// How many of the notifications end in a link to the converter of this
/// kind.
pub open spec fn links_made(notifications: Seq<Notification>, kind: MediaKind) -> nat
    decreases notifications.len(),
{
    if notifications.len() == 0 {
        0
    } else {
        let rest = links_made(notifications.drop_first(), kind);
        if linked_by(notifications[0]) == Some(kind) {
            1 + rest
        } else {
            rest
        }
    }
}

/// What the linker relies on in the framework: a link onto an input port
/// that is shown as linked is refused, and an input port that was linked is
/// shown as linked to every later notification.
pub open spec fn framework_keeps_links(notifications: Seq<Notification>) -> bool {
    &&& forall|j: int, kind: MediaKind|
        0 <= j < notifications.len() && #[trigger] shows_linked(notifications[j].ports, kind)
            ==> linked_by(notifications[j]) != Some(kind)
    &&& forall|i: int, j: int, kind: MediaKind|
        0 <= i < j < notifications.len() && linked_by(#[trigger] notifications[i]) == Some(kind)
            ==> #[trigger] shows_linked(notifications[j].ports, kind)
}

/// Where no notification links the converter, no link to it is made.
proof fn lemma_no_link_made(notifications: Seq<Notification>, kind: MediaKind)
    requires
        forall|j: int|
            0 <= j < notifications.len() ==> linked_by(#[trigger] notifications[j]) != Some(kind),
    ensures
        links_made(notifications, kind) == 0,
    decreases notifications.len(),
{
    if notifications.len() > 0 {
        let rest = notifications.drop_first();
        assert(linked_by(notifications[0]) != Some(kind));
        assert forall|j: int| 0 <= j < rest.len() implies linked_by(#[trigger] rest[j]) != Some(
            kind,
        ) by {
            assert(rest[j] == notifications[j + 1]);
        }
        lemma_no_link_made(rest, kind);
    }
}

/// Over any sequence of notifications, on a framework that keeps its links
/// and refuses a second one onto the same input, at most one link to each
/// converter is ever made.
pub proof fn law_one_link_per_converter(notifications: Seq<Notification>, kind: MediaKind)
    requires
        framework_keeps_links(notifications),
    ensures
        links_made(notifications, kind) <= 1,
    decreases notifications.len(),
{
    if notifications.len() > 0 {
        let rest = notifications.drop_first();
        if linked_by(notifications[0]) == Some(kind) {
            assert forall|j: int| 0 <= j < rest.len() implies linked_by(#[trigger] rest[j])
                != Some(kind) by {
                assert(rest[j] == notifications[j + 1]);
                assert(shows_linked(notifications[j + 1].ports, kind));
            }
            lemma_no_link_made(rest, kind);
        } else {
            assert(framework_keeps_links(rest)) by {
                assert forall|j: int, k: MediaKind|
                    0 <= j < rest.len() && #[trigger] shows_linked(
                        rest[j].ports,
                        k,
                    ) implies linked_by(rest[j]) != Some(k) by {
                    assert(rest[j] == notifications[j + 1]);
                    assert(shows_linked(notifications[j + 1].ports, k));
                }
                assert forall|i: int, j: int, k: MediaKind|
                    0 <= i < j < rest.len() && linked_by(#[trigger] rest[i]) == Some(
                        k,
                    ) implies #[trigger] shows_linked(rest[j].ports, k) by {
                    assert(rest[i] == notifications[i + 1]);
                    assert(rest[j] == notifications[j + 1]);
                    assert(linked_by(notifications[i + 1]) == Some(k));
                    assert(shows_linked(notifications[j + 1].ports, k));
                }
            }
            law_one_link_per_converter(rest, kind);
        }
    }
}

/// How many link requests a sequence of notifications leads to, each
/// handled by a linker of its own.
pub open spec fn total_link_requests(notifications: Seq<Notification>) -> nat
    decreases notifications.len(),
{
    if notifications.len() == 0 {
        0
    } else {
        link_requests(Linker::Notified, notifications[0].observations()) + total_link_requests(
            notifications.drop_first(),
        )
    }
}

/// A sequence of notifications leads to at most one link request each, and
/// to none at all where every one of them finds both converters linked.
pub proof fn law_notifications_request_at_most_one_link_each(notifications: Seq<Notification>)
    ensures
        total_link_requests(notifications) <= notifications.len(),
        (forall|i: int|
            0 <= i < notifications.len() ==> (#[trigger] notifications[i]).ports.saturated())
            ==> total_link_requests(notifications) == 0,
    decreases notifications.len(),
{
    if notifications.len() > 0 {
        let first = notifications[0];
        let rest = notifications.drop_first();
        law_at_most_one_link_request(Linker::Notified, first.observations());
        law_notifications_request_at_most_one_link_each(rest);
        if forall|i: int|
            0 <= i < notifications.len() ==> (#[trigger] notifications[i]).ports.saturated() {
            assert forall|i: int| 0 <= i < rest.len() implies (#[trigger] rest[i]).ports.saturated() by {
                assert(rest[i] == notifications[i + 1]);
            }
            if first.referents.all_alive() {
                let later = seq![Observation::Caps(first.caps), Observation::Linked(first.accepted)];
                law_linked_ports_request_no_link(first.referents, first.ports, later);
                assert(first.observations() =~= seq![
                    Observation::Handles(first.referents),
                    Observation::Ports(first.ports),
                ] + later);
            } else {
                let later = seq![
                    Observation::Ports(first.ports),
                    Observation::Caps(first.caps),
                    Observation::Linked(first.accepted),
                ];
                law_dead_referent_is_no_operation(first.referents, later);
                assert(first.observations() =~= seq![Observation::Handles(first.referents)]
                    + later);
            }
        }
    }
}

} // verus!
