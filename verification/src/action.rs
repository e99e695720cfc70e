//! The actions that a port asks for, and how a set of them is carried out.

use crate::socket::{event_target, general_target, PtpTargetAddress};
use core::time::Duration;
use statime::port::PortAction as StatimeAction;
use statime::port::{ForwardedTLV, PortActionIterator, TimestampContext};
use vstd::prelude::*;

verus! {

/// The handle that statime gives with an event message and wants back with the
/// time of its sending. Nothing is stated of it.
#[verifier::external_type_specification]
#[verifier::external_body]
pub struct ExTimestampContext(TimestampContext);

/// A TLV that statime wants forwarded. Nothing is stated of it.
#[verifier::external_type_specification]
#[verifier::external_body]
pub struct ExForwardedTLV<'a>(ForwardedTLV<'a>);

/// The actions that a port of statime returns, of which some may have been
/// taken out already.
#[verifier::external_type_specification]
#[verifier::external_body]
pub struct ExPortActionIterator<'a>(PortActionIterator<'a>);

/// An action that a port asks for, with handles `C` for event messages and TLVs
/// `T`.
#[derive(Debug, PartialEq, Eq)]
pub enum PortAction<C, T> {
    SendEvent { context: C, data: Vec<u8>, link_local: bool },
    SendGeneral { data: Vec<u8>, link_local: bool },
    ResetAnnounceTimer { duration: Duration },
    ResetSyncTimer { duration: Duration },
    ResetDelayRequestTimer { duration: Duration },
    ResetAnnounceReceiptTimer { duration: Duration },
    ResetFilterUpdateTimer { duration: Duration },
    ForwardTLV { tlv: T },
}

/// A [`PortAction`] with its bytes as a sequence.
pub ghost enum ActionView<C, T> {
    SendEvent { context: C, data: Seq<u8>, link_local: bool },
    SendGeneral { data: Seq<u8>, link_local: bool },
    ResetAnnounceTimer { duration: Duration },
    ResetSyncTimer { duration: Duration },
    ResetDelayRequestTimer { duration: Duration },
    ResetAnnounceReceiptTimer { duration: Duration },
    ResetFilterUpdateTimer { duration: Duration },
    ForwardTLV { tlv: T },
}

impl<C, T> View for PortAction<C, T> {
    type V = ActionView<C, T>;

    open spec fn view(&self) -> ActionView<C, T> {
        match *self {
            PortAction::SendEvent { context, data, link_local } => ActionView::SendEvent {
                context,
                data: data@,
                link_local,
            },
            PortAction::SendGeneral { data, link_local } => ActionView::SendGeneral {
                data: data@,
                link_local,
            },
            PortAction::ResetAnnounceTimer { duration } => ActionView::ResetAnnounceTimer {
                duration,
            },
            PortAction::ResetSyncTimer { duration } => ActionView::ResetSyncTimer { duration },
            PortAction::ResetDelayRequestTimer { duration } => ActionView::ResetDelayRequestTimer {
                duration,
            },
            PortAction::ResetAnnounceReceiptTimer { duration } =>
                ActionView::ResetAnnounceReceiptTimer { duration },
            PortAction::ResetFilterUpdateTimer { duration } => ActionView::ResetFilterUpdateTimer {
                duration,
            },
            PortAction::ForwardTLV { tlv } => ActionView::ForwardTLV { tlv },
        }
    }
}

/// The timers that a port task keeps. Announce and sync messages have none:
/// they are sent when the task is notified.
#[derive(Clone, Copy, Debug, PartialEq, Eq, Structural)]
pub enum TimerId {
    PortAnnounceTimeout,
    DelayRequest,
    FilterUpdate,
}

/// What is to be done for one action, with addresses `A` and TLVs `T`.
#[derive(Debug, PartialEq, Eq)]
pub enum Effect<A, T> {
    /// Send the message on the event socket and report the time of sending.
    SendEvent { data: Vec<u8>, target: A },
    /// Send the message on the general socket.
    SendGeneral { data: Vec<u8>, target: A },
    /// Set the timer to fire after `duration`.
    ResetTimer { timer: TimerId, duration: Duration },
    /// Hand the TLV to the forwarder.
    Forward { tlv: T },
    /// Do nothing.
    Ignore,
}

/// An [`Effect`] with its bytes as a sequence.
pub ghost enum EffectView<A, T> {
    SendEvent { data: Seq<u8>, target: A },
    SendGeneral { data: Seq<u8>, target: A },
    ResetTimer { timer: TimerId, duration: Duration },
    Forward { tlv: T },
    Ignore,
}

impl<A, T> View for Effect<A, T> {
    type V = EffectView<A, T>;

    open spec fn view(&self) -> EffectView<A, T> {
        match *self {
            Effect::SendEvent { data, target } => EffectView::SendEvent { data: data@, target },
            Effect::SendGeneral { data, target } => EffectView::SendGeneral { data: data@, target },
            Effect::ResetTimer { timer, duration } => EffectView::ResetTimer { timer, duration },
            Effect::Forward { tlv } => EffectView::Forward { tlv },
            Effect::Ignore => EffectView::Ignore,
        }
    }
}

/// What is to be done for an action.
pub open spec fn effect_of<A: PtpTargetAddress, C, T>(action: ActionView<C, T>) -> EffectView<
    A,
    T,
> {
    match action {
        ActionView::SendEvent { context, data, link_local } => EffectView::SendEvent {
            data,
            target: crate::socket::spec_event_target::<A>(link_local),
        },
        ActionView::SendGeneral { data, link_local } => EffectView::SendGeneral {
            data,
            target: crate::socket::spec_general_target::<A>(link_local),
        },
        ActionView::ResetDelayRequestTimer { duration } => EffectView::ResetTimer {
            timer: TimerId::DelayRequest,
            duration,
        },
        ActionView::ResetAnnounceReceiptTimer { duration } => EffectView::ResetTimer {
            timer: TimerId::PortAnnounceTimeout,
            duration,
        },
        ActionView::ResetFilterUpdateTimer { duration } => EffectView::ResetTimer {
            timer: TimerId::FilterUpdate,
            duration,
        },
        ActionView::ForwardTLV { tlv } => EffectView::Forward { tlv },
        ActionView::ResetAnnounceTimer { duration } => EffectView::Ignore,
        ActionView::ResetSyncTimer { duration } => EffectView::Ignore,
    }
}

/// An action that has been carried out, with the time of sending that was
/// reported for it.
pub ghost struct Handled<C, S, T> {
    pub action: ActionView<C, T>,
    pub sent_at: Option<S>,
}

impl<C, S, T> Handled<C, S, T> {
    /// Whether this is an event message whose time of sending is known.
    pub open spec fn is_timestamped(self) -> bool {
        self.action is SendEvent && self.sent_at is Some
    }
}

/// The handle and the time of sending of the last event message in `handled`
/// whose time of sending is known.
pub open spec fn pending_of<C, S, T>(handled: Seq<Handled<C, S, T>>) -> Option<(C, S)>
    decreases handled.len(),
{
    if handled.len() == 0 {
        None
    } else if handled.last().is_timestamped() {
        Some((handled.last().action->SendEvent_context, handled.last().sent_at->0))
    } else {
        pending_of(handled.drop_last())
    }
}

/// The actions in `handled`.
pub open spec fn actions_of<C, S, T>(handled: Seq<Handled<C, S, T>>) -> Seq<ActionView<C, T>> {
    handled.map_values(|h: Handled<C, S, T>| h.action)
}

/// Of the event messages in a set, the last one whose time of sending is known
/// is the one that is reported to the port.
pub proof fn law_last_timestamp_is_reported<C, S, T>(handled: Seq<Handled<C, S, T>>, last: int)
    requires
        0 <= last < handled.len(),
        handled[last].is_timestamped(),
        forall|i: int| last < i < handled.len() ==> !(#[trigger] handled[i]).is_timestamped(),
    ensures
        pending_of(handled) == Some(
            (handled[last].action->SendEvent_context, handled[last].sent_at->0),
        ),
    decreases handled.len(),
{
    if last < handled.len() - 1 {
        let before = handled.drop_last();
        assert(!handled[handled.len() - 1].is_timestamped());
        assert forall|i: int| last < i < before.len() implies !(
        #[trigger] before[i]).is_timestamped() by {
            assert(before[i] == handled[i]);
        }
        law_last_timestamp_is_reported(before, last);
    }
}

/// Where no event message of a set has a time of sending, none is reported.
pub proof fn law_no_timestamp_nothing_reported<C, S, T>(handled: Seq<Handled<C, S, T>>)
    requires
        forall|i: int| 0 <= i < handled.len() ==> !(#[trigger] handled[i]).is_timestamped(),
    ensures
        pending_of(handled) is None,
    decreases handled.len(),
{
    if handled.len() > 0 {
        let before = handled.drop_last();
        assert(!handled[handled.len() - 1].is_timestamped());
        assert forall|i: int| 0 <= i < before.len() implies !(
        #[trigger] before[i]).is_timestamped() by {
            assert(before[i] == handled[i]);
        }
        law_no_timestamp_nothing_reported(before);
    }
}

/// A set with a single event message, as statime promises of its sets, loses no
/// time of sending: what is known of that message is reported.
pub proof fn law_single_event_is_reported<C, S, T>(handled: Seq<Handled<C, S, T>>, event: int)
    requires
        0 <= event < handled.len(),
        handled[event].action is SendEvent,
        forall|i: int|
            0 <= i < handled.len() && i != event ==> !((
            #[trigger] handled[i]).action is SendEvent),
    ensures
        pending_of(handled) == match handled[event].sent_at {
            Some(time) => Some((handled[event].action->SendEvent_context, time)),
            None => None,
        },
{
    if handled[event].sent_at is Some {
        law_last_timestamp_is_reported(handled, event);
    } else {
        law_no_timestamp_nothing_reported(handled);
    }
}

/// The actions that `actions` will still give, in order, each with a TLV of its
/// own in place of a borrowed one.
pub uninterp spec fn remaining(actions: PortActionIterator<'_>) -> Seq<
    ActionView<TimestampContext, ForwardedTLV<'static>>,
>;

/// Takes the next action out of an iterator of statime, by `next` of
/// `statime::port::PortActionIterator`, and makes its TLV one of its own, by
/// `into_owned` of `statime::port::ForwardedTLV`. The contract claims that the
/// iterator gives its remaining actions one by one, in order and unchanged, and
/// then nothing, and that the bytes of a message are copied as they are.
#[verifier::external_body]
fn next_action(actions: &mut PortActionIterator<'_>) -> (action: Option<
    PortAction<TimestampContext, ForwardedTLV<'static>>,
>)
    ensures
        match action {
            Some(a) => remaining(*old(actions)).len() > 0 && a@ == remaining(*old(actions))[0]
                && remaining(*final(actions)) == remaining(*old(actions)).drop_first(),
            None => remaining(*old(actions)).len() == 0 && remaining(*final(actions)).len() == 0,
        },
{
    Some(match actions.next()? {
        StatimeAction::SendEvent { context, data, link_local } => PortAction::SendEvent { context, data: data.to_vec(), link_local },
        StatimeAction::SendGeneral { data, link_local } => PortAction::SendGeneral { data: data.to_vec(), link_local },
        StatimeAction::ResetAnnounceTimer { duration } => PortAction::ResetAnnounceTimer { duration },
        StatimeAction::ResetSyncTimer { duration } => PortAction::ResetSyncTimer { duration },
        StatimeAction::ResetDelayRequestTimer { duration } => PortAction::ResetDelayRequestTimer { duration },
        StatimeAction::ResetAnnounceReceiptTimer { duration } => PortAction::ResetAnnounceReceiptTimer { duration },
        StatimeAction::ResetFilterUpdateTimer { duration } => PortAction::ResetFilterUpdateTimer { duration },
        StatimeAction::ForwardTLV { tlv } => PortAction::ForwardTLV { tlv: tlv.into_owned() },
    })
}

/// The carrying out of one set of actions: it turns each action into what is to
/// be done, and keeps the time of sending that the port is to be told of.
pub struct ActionRun<C, S, T> {
    /// The handle of the event message whose time of sending is awaited.
    awaiting: Option<C>,
    /// What the port is to be told of when the set is done.
    pending: Option<(C, S)>,
    /// What has been carried out.
    handled: Ghost<Seq<Handled<C, S, T>>>,
}

impl<C, S, T> ActionRun<C, S, T> {
    /// The actions that have been carried out, in order.
    pub closed spec fn handled(self) -> Seq<Handled<C, S, T>> {
        self.handled@
    }

    /// Whether the time of sending of an event message is awaited.
    pub closed spec fn is_awaiting(self) -> bool {
        self.awaiting is Some
    }

    /// The invariant of a run: what it will report is the last known time of
    /// sending, and the time that it awaits is that of its last action.
    pub closed spec fn wf(self) -> bool {
        &&& self.pending == pending_of(self.handled@)
        &&& self.awaiting matches Some(context) ==> {
            &&& self.handled@.len() > 0
            &&& self.handled@.last().action is SendEvent
            &&& self.handled@.last().action->SendEvent_context == context
            &&& self.handled@.last().sent_at is None
        }
    }

    /// A run that has carried out nothing.
    pub fn new() -> (run: Self)
        ensures
            run.wf(),
            !run.is_awaiting(),
            run.handled() == Seq::<Handled<C, S, T>>::empty(),
    {
        ActionRun { awaiting: None, pending: None, handled: Ghost(Seq::empty()) }
    }

    /// Whether the time of sending of an event message is awaited.
    pub fn awaits_time(&self) -> (awaits: bool)
        ensures
            awaits == self.is_awaiting(),
    {
        self.awaiting.is_some()
    }

    /// Begins an action and says what is to be done for it. After an event
    /// message the time of its sending is awaited.
    pub fn begin<A: PtpTargetAddress>(&mut self, action: PortAction<C, T>) -> (effect: Effect<A, T>)
        requires
            old(self).wf(),
            !old(self).is_awaiting(),
        ensures
            final(self).wf(),
            effect@ == effect_of::<A, C, T>(action@),
            final(self).handled() == old(self).handled().push(
                Handled { action: action@, sent_at: None },
            ),
            final(self).is_awaiting() == (action is SendEvent),
    {
        proof {
            let entry = Handled::<C, S, T> { action: action@, sent_at: None };
            assert(self.handled@.push(entry).drop_last() =~= self.handled@);
            self.handled@ = self.handled@.push(entry);
        }
        match action {
            PortAction::SendEvent { context, data, link_local } => {
                self.awaiting = Some(context);
                Effect::SendEvent { data, target: event_target(link_local) }
            },
            PortAction::SendGeneral { data, link_local } => {
                Effect::SendGeneral { data, target: general_target(link_local) }
            },
            PortAction::ResetDelayRequestTimer { duration } => {
                Effect::ResetTimer { timer: TimerId::DelayRequest, duration }
            },
            PortAction::ResetAnnounceReceiptTimer { duration } => {
                Effect::ResetTimer { timer: TimerId::PortAnnounceTimeout, duration }
            },
            PortAction::ResetFilterUpdateTimer { duration } => {
                Effect::ResetTimer { timer: TimerId::FilterUpdate, duration }
            },
            PortAction::ForwardTLV { tlv } => Effect::Forward { tlv },
            PortAction::ResetAnnounceTimer { duration: _ } => Effect::Ignore,
            PortAction::ResetSyncTimer { duration: _ } => Effect::Ignore,
        }
    }

    /// Takes the time at which the awaited event message was sent, or that it
    /// is not known. An unknown time leaves what is to be reported as it was.
    /// The actions that have been carried out stay the same.
    pub fn sent(&mut self, time: Option<S>)
        requires
            old(self).wf(),
            old(self).is_awaiting(),
        ensures
            final(self).wf(),
            !final(self).is_awaiting(),
            final(self).handled() == old(self).handled().update(
                old(self).handled().len() - 1,
                Handled { action: old(self).handled().last().action, sent_at: time },
            ),
            actions_of(final(self).handled()) == actions_of(old(self).handled()),
    {
        proof {
            let entry = Handled { action: self.handled@.last().action, sent_at: time };
            let updated = self.handled@.update(self.handled@.len() - 1, entry);
            assert(updated.drop_last() =~= self.handled@.drop_last());
            assert(actions_of(updated) =~= actions_of(self.handled@));
            self.handled@ = updated;
        }
        if let Some(context) = self.awaiting.take() {
            if let Some(time) = time {
                self.pending = Some((context, time));
            }
        }
    }

    /// Ends the run and gives what the port is to be told: the handle and the
    /// time of sending of the last event message whose time is known.
    pub fn finish(self) -> (pending: Option<(C, S)>)
        requires
            self.wf(),
        ensures
            pending == pending_of(self.handled()),
    {
        self.pending
    }
}

impl<S> ActionRun<TimestampContext, S, ForwardedTLV<'static>> {
    /// Begins the next action of a set that a port of statime returned, and says
    /// what is to be done for it; `None` when the set is done. The actions that
    /// have been carried out and those that remain are together always the
    /// whole set, in its order: none is lost, repeated or moved.
    pub fn begin_next<A: PtpTargetAddress>(&mut self, actions: &mut PortActionIterator<'_>) -> (effect: Option<
        Effect<A, ForwardedTLV<'static>>,
    >)
        requires
            old(self).wf(),
            !old(self).is_awaiting(),
        ensures
            final(self).wf(),
            effect is None <==> remaining(*old(actions)).len() == 0,
            effect is None ==> {
                &&& *final(self) == *old(self)
                &&& remaining(*final(actions)).len() == 0
            },
            effect matches Some(e) ==> {
                let action = remaining(*old(actions))[0];
                &&& e@ == effect_of::<A, TimestampContext, ForwardedTLV<'static>>(action)
                &&& remaining(*final(actions)) == remaining(*old(actions)).drop_first()
                &&& final(self).handled() == old(self).handled().push(
                    Handled { action, sent_at: None },
                )
                &&& final(self).is_awaiting() == (action is SendEvent)
            },
            actions_of(final(self).handled()) + remaining(*final(actions)) == actions_of(
                old(self).handled(),
            ) + remaining(*old(actions)),
    {
        let ghost before = self.handled();
        let ghost todo = remaining(*actions);
        match next_action(actions) {
            Some(action) => {
                let effect = self.begin(action);
                assert(actions_of(self.handled()) + remaining(*actions) =~= actions_of(before)
                    + todo);
                Some(effect)
            },
            None => {
                assert(remaining(*actions) =~= todo);
                None
            },
        }
    }
}

/// Whether `effect` is what a port wants that asks for `action`: its bytes go out
/// as they are, on the socket of their kind, to the address of their kind that
/// `link_local` selects; a timer is set to the duration that was given with it; a
/// TLV is forwarded as it is.
pub open spec fn does_what_is_asked<A: PtpTargetAddress, C, T>(
    action: ActionView<C, T>,
    effect: Effect<A, T>,
) -> bool {
    match effect {
        Effect::SendEvent { data, target } => {
            &&& action is SendEvent
            &&& data@ == action->SendEvent_data
            &&& action->SendEvent_link_local ==> target == A::PDELAY_EVENT
            &&& !action->SendEvent_link_local ==> target == A::PRIMARY_EVENT
        },
        Effect::SendGeneral { data, target } => {
            &&& action is SendGeneral
            &&& data@ == action->SendGeneral_data
            &&& action->SendGeneral_link_local ==> target == A::PDELAY_GENERAL
            &&& !action->SendGeneral_link_local ==> target == A::PRIMARY_GENERAL
        },
        Effect::ResetTimer { timer, duration } => match timer {
            TimerId::PortAnnounceTimeout => action == (
            ActionView::<C, T>::ResetAnnounceReceiptTimer { duration }),
            TimerId::DelayRequest => action == (ActionView::<C, T>::ResetDelayRequestTimer {
                duration,
            }),
            TimerId::FilterUpdate => action == (ActionView::<C, T>::ResetFilterUpdateTimer {
                duration,
            }),
        },
        Effect::Forward { tlv } => action == (ActionView::<C, T>::ForwardTLV { tlv }),
        Effect::Ignore => action is ResetAnnounceTimer || action is ResetSyncTimer,
    }
}

/// Each action gets the effect that it asks for, and only an event message has
/// its time of sending awaited.
pub proof fn law_actions_get_what_they_ask_for<A: PtpTargetAddress, C, S, T>(
    run: &mut ActionRun<C, S, T>,
    action: PortAction<C, T>,
    effect: Effect<A, T>,
)
    requires
        call_ensures(ActionRun::<C, S, T>::begin::<A>, (run, action), effect),
    ensures
        does_what_is_asked(action@, effect),
        final(run).is_awaiting() <==> effect is SendEvent,
        effect is SendEvent <==> action is SendEvent,
{
}

/// Where a message goes depends on its kind and on `link_local` alone, never on
/// its bytes, on its handle or on what was carried out before it.
pub proof fn law_target_does_not_depend_on_the_bytes<A: PtpTargetAddress, C, S, T>(
    run: &mut ActionRun<C, S, T>,
    other_run: &mut ActionRun<C, S, T>,
    action: PortAction<C, T>,
    other: PortAction<C, T>,
    effect: Effect<A, T>,
    other_effect: Effect<A, T>,
)
    requires
        call_ensures(ActionRun::<C, S, T>::begin::<A>, (run, action), effect),
        call_ensures(ActionRun::<C, S, T>::begin::<A>, (other_run, other), other_effect),
    ensures
        action is SendEvent && other is SendEvent && action->SendEvent_link_local
            == other->SendEvent_link_local ==> effect->SendEvent_target
            == other_effect->SendEvent_target,
        action is SendGeneral && other is SendGeneral && action->SendGeneral_link_local
            == other->SendGeneral_link_local ==> effect->SendGeneral_target
            == other_effect->SendGeneral_target,
{
}

/// The view of an action keeps all of it: from the view its kind, its bytes and
/// everything else in it can be told.
pub proof fn law_views_keep_everything<C, T>(action: PortAction<C, T>)
    ensures
        match action {
            PortAction::SendEvent { context, data, link_local } => {
                &&& action@ is SendEvent
                &&& action@->context == context
                &&& action@->SendEvent_data == data@
                &&& action@->SendEvent_link_local == link_local
            },
            PortAction::SendGeneral { data, link_local } => {
                &&& action@ is SendGeneral
                &&& action@->SendGeneral_data == data@
                &&& action@->SendGeneral_link_local == link_local
            },
            PortAction::ResetAnnounceTimer { duration } => action@ is ResetAnnounceTimer
                && action@->ResetAnnounceTimer_duration == duration,
            PortAction::ResetSyncTimer { duration } => action@ is ResetSyncTimer
                && action@->ResetSyncTimer_duration == duration,
            PortAction::ResetDelayRequestTimer { duration } => action@ is ResetDelayRequestTimer
                && action@->ResetDelayRequestTimer_duration == duration,
            PortAction::ResetAnnounceReceiptTimer { duration } =>
                action@ is ResetAnnounceReceiptTimer
                && action@->ResetAnnounceReceiptTimer_duration == duration,
            PortAction::ResetFilterUpdateTimer { duration } => action@ is ResetFilterUpdateTimer
                && action@->ResetFilterUpdateTimer_duration == duration,
            PortAction::ForwardTLV { tlv } => action@ is ForwardTLV && action@->tlv == tlv,
        },
{
}

/// The actions of a set that a port of statime returned are taken one by one from
/// its front, each gets the effect that it asks for, and the run ends when none
/// remains.
pub proof fn law_sets_are_carried_out_in_order<A: PtpTargetAddress, S>(
    run: &mut ActionRun<TimestampContext, S, ForwardedTLV<'static>>,
    actions: &mut PortActionIterator<'_>,
    effect: Option<Effect<A, ForwardedTLV<'static>>>,
)
    requires
        call_ensures(
            ActionRun::<TimestampContext, S, ForwardedTLV<'static>>::begin_next::<A>,
            (run, actions),
            effect,
        ),
    ensures
        effect is Some <==> remaining(*old(actions)).len() > 0,
        effect is None ==> *final(run) == *old(run) && remaining(*final(actions)).len() == 0,
        effect is Some ==> {
            let action = remaining(*old(actions))[0];
            &&& does_what_is_asked(action, effect->0)
            &&& remaining(*old(actions)) == seq![action] + remaining(*final(actions))
            &&& final(run).is_awaiting() <==> action is SendEvent
            &&& final(run).handled().len() == old(run).handled().len() + 1
            &&& final(run).handled().last().action == action
            &&& final(run).handled().drop_last() == old(run).handled()
        },
{
    if effect is Some {
        let action = remaining(*old(actions))[0];
        assert(remaining(*old(actions)) =~= seq![action] + remaining(*final(actions)));
        assert(final(run).handled().drop_last() =~= old(run).handled());
    }
}

/// A run reports the time of sending that it was given last: an event message
/// whose time is known takes the place of what was to be reported, one whose time
/// is not known leaves it, and so does every other action.
pub proof fn law_last_known_time_is_reported<A: PtpTargetAddress, C, S, T>(
    begun: &mut ActionRun<C, S, T>,
    sent: &mut ActionRun<C, S, T>,
    action: PortAction<C, T>,
    effect: Effect<A, T>,
    time: Option<S>,
    before: Option<(C, S)>,
    between: Option<(C, S)>,
    after: Option<(C, S)>,
)
    requires
        call_ensures(ActionRun::<C, S, T>::finish, (*old(begun),), before),
        call_ensures(ActionRun::<C, S, T>::begin::<A>, (begun, action), effect),
        call_ensures(ActionRun::<C, S, T>::finish, (*final(begun),), between),
        action is SendEvent ==> {
            &&& *old(sent) == *final(begun)
            &&& call_ensures(ActionRun::<C, S, T>::sent, (sent, time), ())
            &&& call_ensures(ActionRun::<C, S, T>::finish, (*final(sent),), after)
        },
    ensures
        between == before,
        action is SendEvent && time is None ==> after == before,
        action is SendEvent && time is Some ==> after == Some((action->context, time->0)),
{
    let start = old(begun).handled();
    let first = final(begun).handled();
    assert(first.drop_last() =~= start);
    if action is SendEvent {
        let second = final(sent).handled();
        assert(second.drop_last() =~= start);
    }
}

/// A new run has carried out nothing and reports nothing.
pub proof fn law_new_run_reports_nothing<C, S, T>(
    run: ActionRun<C, S, T>,
    awaits: bool,
    pending: Option<(C, S)>,
)
    requires
        call_ensures(ActionRun::<C, S, T>::new, (), run),
        call_ensures(ActionRun::<C, S, T>::awaits_time, (&run,), awaits),
        call_ensures(ActionRun::<C, S, T>::finish, (run,), pending),
    ensures
        run.handled().len() == 0,
        !awaits,
        pending is None,
{
}

/// A run can always go on: the next action can begin unless a time of sending is
/// awaited, and then that time can be given, known or not. It can be ended at any
/// time.
pub proof fn law_runs_can_go_on<A: PtpTargetAddress, C, S, T>(
    fresh: &mut ActionRun<C, S, T>,
    begun: &mut ActionRun<C, S, T>,
    sent: &mut ActionRun<C, S, T>,
    action: PortAction<C, T>,
    next: PortAction<C, T>,
    effect: Effect<A, T>,
    time: Option<S>,
)
    ensures
        call_ensures(ActionRun::<C, S, T>::new, (), *old(fresh)) ==> {
            &&& call_requires(ActionRun::<C, S, T>::begin::<A>, (fresh, next))
            &&& call_requires(ActionRun::<C, S, T>::finish, (*old(fresh),))
        },
        call_ensures(ActionRun::<C, S, T>::begin::<A>, (begun, action), effect) && *old(sent)
            == *final(begun) ==> {
            &&& call_requires(ActionRun::<C, S, T>::finish, (*final(begun),))
            &&& action is SendEvent ==> call_requires(ActionRun::<C, S, T>::sent, (sent, time))
            &&& !(action is SendEvent) ==> call_requires(
                ActionRun::<C, S, T>::begin::<A>,
                (sent, next),
            )
        },
        call_ensures(ActionRun::<C, S, T>::sent, (begun, time), ()) && *old(sent) == *final(begun)
            ==> {
            &&& call_requires(ActionRun::<C, S, T>::finish, (*final(begun),))
            &&& call_requires(ActionRun::<C, S, T>::begin::<A>, (sent, next))
        },
{
}

/// What a run reports is the handle and the time of an event message that it
/// carried out, and no later one has a known time. It reports nothing only where
/// no event message has a known time.
pub proof fn law_report_is_of_the_last_timed_event<C, S, T>(
    run: ActionRun<C, S, T>,
    pending: Option<(C, S)>,
)
    requires
        call_ensures(ActionRun::<C, S, T>::finish, (run,), pending),
    ensures
        pending matches Some(report) ==> exists|i: int|
            {
                &&& 0 <= i < run.handled().len()
                &&& (#[trigger] run.handled()[i]).action is SendEvent
                &&& run.handled()[i].action->context == report.0
                &&& run.handled()[i].sent_at == Some(report.1)
                &&& forall|k: int|
                    i < k < run.handled().len() && (#[trigger] run.handled()[k]).action is SendEvent
                        ==> run.handled()[k].sent_at is None
            },
        pending is None ==> forall|i: int|
            0 <= i < run.handled().len() && (#[trigger] run.handled()[i]).action is SendEvent
                ==> run.handled()[i].sent_at is None,
{
    lemma_pending(run.handled());
}

proof fn lemma_pending<C, S, T>(handled: Seq<Handled<C, S, T>>)
    ensures
        pending_of(handled) matches Some(report) ==> exists|i: int|
            {
                &&& 0 <= i < handled.len()
                &&& (#[trigger] handled[i]).action is SendEvent
                &&& handled[i].action->context == report.0
                &&& handled[i].sent_at == Some(report.1)
                &&& forall|k: int|
                    i < k < handled.len() && (#[trigger] handled[k]).action is SendEvent
                        ==> handled[k].sent_at is None
            },
        pending_of(handled) is None ==> forall|i: int|
            0 <= i < handled.len() && (#[trigger] handled[i]).action is SendEvent
                ==> handled[i].sent_at is None,
    decreases handled.len(),
{
    if handled.len() > 0 {
        let last = handled.len() - 1;
        if handled.last().is_timestamped() {
            assert(handled[last].action is SendEvent);
        } else {
            let before = handled.drop_last();
            lemma_pending(before);
            if let Some(report) = pending_of(before) {
                let i = choose|i: int|
                    {
                        &&& 0 <= i < before.len()
                        &&& (#[trigger] before[i]).action is SendEvent
                        &&& before[i].action->context == report.0
                        &&& before[i].sent_at == Some(report.1)
                        &&& forall|k: int|
                            i < k < before.len() && (#[trigger] before[k]).action is SendEvent
                                ==> before[k].sent_at is None
                    };
                assert(handled[i] == before[i]);
                assert forall|k: int|
                    i < k < handled.len() && (#[trigger] handled[k]).action is SendEvent implies
                    handled[k].sent_at is None by {
                    if k < last {
                        assert(before[k] == handled[k]);
                    }
                }
            } else {
                assert forall|k: int|
                    0 <= k < handled.len() && (#[trigger] handled[k]).action is SendEvent implies
                    handled[k].sent_at is None by {
                    if k < last {
                        assert(before[k] == handled[k]);
                    }
                }
            }
        }
    }
}

} // verus!
