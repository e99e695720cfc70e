//! Where messages are sent, and how the UDP sockets for them are opened.

use vstd::prelude::*;

verus! {

/// An IPv4 endpoint: the address and the UDP port.
pub type SocketAddrV4 = ([u8; 4], u16);

/// The group for every message but those that measure the delay to a peer.
pub const IPV4_PRIMARY_MULTICAST: [u8; 4] = [224, 0, 1, 129];

/// The group for the messages that measure the delay to a peer. It is link
/// local: routers do not forward it.
pub const IPV4_PDELAY_MULTICAST: [u8; 4] = [224, 0, 0, 107];

/// The UDP port of the messages that are timestamped.
pub const EVENT_PORT: u16 = 319;

/// The UDP port of the messages that are not.
pub const GENERAL_PORT: u16 = 320;

/// The four addresses that a transport sends to.
pub trait PtpTargetAddress: Sized {
    const PRIMARY_EVENT: Self;
    const PRIMARY_GENERAL: Self;
    const PDELAY_EVENT: Self;
    const PDELAY_GENERAL: Self;
}

impl PtpTargetAddress for SocketAddrV4 {
    const PRIMARY_EVENT: Self = (IPV4_PRIMARY_MULTICAST, EVENT_PORT);
    const PRIMARY_GENERAL: Self = (IPV4_PRIMARY_MULTICAST, GENERAL_PORT);
    const PDELAY_EVENT: Self = (IPV4_PDELAY_MULTICAST, EVENT_PORT);
    const PDELAY_GENERAL: Self = (IPV4_PDELAY_MULTICAST, GENERAL_PORT);
}

/// The address of an event message.
pub open spec fn spec_event_target<A: PtpTargetAddress>(link_local: bool) -> A {
    if link_local {
        A::PDELAY_EVENT
    } else {
        A::PRIMARY_EVENT
    }
}

/// The address of a general message.
pub open spec fn spec_general_target<A: PtpTargetAddress>(link_local: bool) -> A {
    if link_local {
        A::PDELAY_GENERAL
    } else {
        A::PRIMARY_GENERAL
    }
}

/// The address that an event message is sent to.
pub fn event_target<A: PtpTargetAddress>(link_local: bool) -> (target: A)
    ensures
        target == spec_event_target::<A>(link_local),
{
    if link_local {
        A::PDELAY_EVENT
    } else {
        A::PRIMARY_EVENT
    }
}

/// The address that a general message is sent to.
pub fn general_target<A: PtpTargetAddress>(link_local: bool) -> (target: A)
    ensures
        target == spec_general_target::<A>(link_local),
{
    if link_local {
        A::PDELAY_GENERAL
    } else {
        A::PRIMARY_GENERAL
    }
}

/// Over IPv4 the kind of a message selects the port alone and `link_local` the
/// group alone: an event message goes to port 319 and a general one to port
/// 320, to 224.0.0.107 when it is link local and to 224.0.1.129 when it is not.
pub proof fn law_ipv4_targets(link_local: bool)
    ensures
        spec_event_target::<SocketAddrV4>(link_local).1 == 319,
        spec_general_target::<SocketAddrV4>(link_local).1 == 320,
        spec_event_target::<SocketAddrV4>(link_local).0
            == spec_general_target::<SocketAddrV4>(link_local).0,
        spec_event_target::<SocketAddrV4>(link_local).0@ == if link_local {
            seq![224u8, 0, 0, 107]
        } else {
            seq![224u8, 0, 1, 129]
        },
{
}

/// No two of the four IPv4 addresses are equal: from the address that a message
/// was sent to, its kind and whether it is link local can be told.
pub proof fn law_ipv4_targets_differ(link_local: bool, other: bool)
    ensures
        spec_event_target::<SocketAddrV4>(link_local)
            != spec_general_target::<SocketAddrV4>(other),
        link_local != other ==> spec_event_target::<SocketAddrV4>(link_local)
            != spec_event_target::<SocketAddrV4>(other),
        link_local != other ==> spec_general_target::<SocketAddrV4>(link_local)
            != spec_general_target::<SocketAddrV4>(other),
{
    law_ipv4_targets(link_local);
    law_ipv4_targets(other);
    assert(seq![224u8, 0, 0, 107][3] != seq![224u8, 0, 1, 129][3]);
}

/// How a socket takes timestamps of the packets on an interface.
#[derive(Clone, Copy, Debug, PartialEq, Eq, Structural)]
pub enum InterfaceTimestampMode {
    HardwareAll,
    HardwareRecv,
    HardwarePTPAll,
    HardwarePTPRecv,
    SoftwareAll,
    SoftwareRecv,
    /// No timestamps are taken.
    Off,
}

/// What a UDP socket is opened with.
#[derive(Clone, Copy, Debug, PartialEq, Eq, Structural)]
pub struct OpenRequest {
    pub port: u16,
    pub timestamping: InterfaceTimestampMode,
    pub bind_phc: Option<u32>,
}

/// How far the opening of a socket has come.
#[derive(Clone, Copy, Debug, PartialEq, Eq, Structural)]
pub enum OpenStage {
    Opening,
    JoiningPrimary,
    JoiningPdelay,
    Ready,
}

/// What is to be done next for a socket that is being opened.
#[derive(Debug, PartialEq, Eq)]
pub enum OpenAction<I> {
    /// Open a UDP socket on the interface.
    Open { interface: I, request: OpenRequest },
    /// Join the multicast group on the interface.
    Join { group: SocketAddrV4, interface: I },
    /// Hand the socket out.
    Deliver,
}

/// The opening of a socket on an interface: a UDP socket that then joins both
/// multicast groups.
#[derive(Debug, PartialEq, Eq)]
pub struct SocketOpening<I> {
    pub interface: I,
    pub request: OpenRequest,
    pub stage: OpenStage,
}

/// The stage after `stage` went well.
pub open spec fn next_stage(stage: OpenStage) -> OpenStage {
    match stage {
        OpenStage::Opening => OpenStage::JoiningPrimary,
        OpenStage::JoiningPrimary => OpenStage::JoiningPdelay,
        OpenStage::JoiningPdelay => OpenStage::Ready,
        OpenStage::Ready => OpenStage::Ready,
    }
}

/// Starts to open the socket for event messages, with the timestamping and the
/// hardware clock that the caller asks for.
pub fn open_ipv4_event_socket<I>(
    interface: I,
    timestamping: InterfaceTimestampMode,
    bind_phc: Option<u32>,
) -> (opening: SocketOpening<I>)
    ensures
        opening == (SocketOpening {
            interface,
            request: OpenRequest { port: 319, timestamping, bind_phc },
            stage: OpenStage::Opening,
        }),
{
    SocketOpening {
        interface,
        request: OpenRequest { port: EVENT_PORT, timestamping, bind_phc },
        stage: OpenStage::Opening,
    }
}

/// Starts to open the socket for general messages, which takes no timestamps.
pub fn open_ipv4_general_socket<I>(interface: I) -> (opening: SocketOpening<I>)
    ensures
        opening == (SocketOpening {
            interface,
            request: OpenRequest {
                port: 320,
                timestamping: InterfaceTimestampMode::Off,
                bind_phc: None,
            },
            stage: OpenStage::Opening,
        }),
{
    SocketOpening {
        interface,
        request: OpenRequest {
            port: GENERAL_PORT,
            timestamping: InterfaceTimestampMode::Off,
            bind_phc: None,
        },
        stage: OpenStage::Opening,
    }
}

impl<I: Copy> SocketOpening<I> {
    /// What is to be done at this stage. A group is joined by its address with
    /// port 0.
    pub open spec fn spec_action(self) -> OpenAction<I> {
        match self.stage {
            OpenStage::Opening => OpenAction::Open {
                interface: self.interface,
                request: self.request,
            },
            OpenStage::JoiningPrimary => OpenAction::Join {
                group: (IPV4_PRIMARY_MULTICAST, 0),
                interface: self.interface,
            },
            OpenStage::JoiningPdelay => OpenAction::Join {
                group: (IPV4_PDELAY_MULTICAST, 0),
                interface: self.interface,
            },
            OpenStage::Ready => OpenAction::Deliver,
        }
    }

    /// What is to be done next.
    pub fn action(&self) -> (action: OpenAction<I>)
        ensures
            action == self.spec_action(),
    {
        match self.stage {
            OpenStage::Opening => OpenAction::Open {
                interface: self.interface,
                request: self.request,
            },
            OpenStage::JoiningPrimary => OpenAction::Join {
                group: (IPV4_PRIMARY_MULTICAST, 0),
                interface: self.interface,
            },
            OpenStage::JoiningPdelay => OpenAction::Join {
                group: (IPV4_PDELAY_MULTICAST, 0),
                interface: self.interface,
            },
            OpenStage::Ready => OpenAction::Deliver,
        }
    }

    /// What the opening becomes when its current action came out as `outcome`.
    pub open spec fn spec_completed<E>(self, outcome: Result<(), E>) -> Result<Self, E> {
        match outcome {
            Ok(_) => Ok(SocketOpening { stage: next_stage(self.stage), ..self }),
            Err(error) => Err(error),
        }
    }

    /// Takes the outcome of the current action. An error ends the opening and
    /// is handed back as it came.
    pub fn completed<E>(self, outcome: Result<(), E>) -> (next: Result<Self, E>)
        ensures
            next == self.spec_completed(outcome),
    {
        match outcome {
            Ok(_) => {
                let stage = match self.stage {
                    OpenStage::Opening => OpenStage::JoiningPrimary,
                    OpenStage::JoiningPrimary => OpenStage::JoiningPdelay,
                    OpenStage::JoiningPdelay => OpenStage::Ready,
                    OpenStage::Ready => OpenStage::Ready,
                };
                Ok(SocketOpening { interface: self.interface, request: self.request, stage })
            },
            Err(error) => Err(error),
        }
    }

    /// What the opening becomes when its actions, one after the other, came out
    /// as `outcomes`.
    pub open spec fn after<E>(self, outcomes: Seq<Result<(), E>>) -> Result<Self, E>
        decreases outcomes.len(),
    {
        if outcomes.len() == 0 {
            Ok(self)
        } else {
            match self.after(outcomes.drop_last()) {
                Ok(opening) => opening.spec_completed(outcomes.last()),
                Err(error) => Err(error),
            }
        }
    }

    /// Opening takes three successes: the socket, then the primary group, then
    /// the peer delay group. After fewer it is not ready, after three it is.
    pub proof fn law_ready_after_three_successes<E>(self, outcomes: Seq<Result<(), E>>)
        requires
            self.stage is Opening,
            forall|i: int| 0 <= i < outcomes.len() ==> (#[trigger] outcomes[i]) is Ok,
        ensures
            self.after(outcomes) is Ok,
            self.after(outcomes)->Ok_0.interface == self.interface,
            self.after(outcomes)->Ok_0.request == self.request,
            outcomes.len() == 0 ==> self.after(outcomes)->Ok_0.stage is Opening,
            outcomes.len() == 1 ==> self.after(outcomes)->Ok_0.stage is JoiningPrimary,
            outcomes.len() == 2 ==> self.after(outcomes)->Ok_0.stage is JoiningPdelay,
            outcomes.len() >= 3 ==> self.after(outcomes)->Ok_0.stage is Ready,
    {
        self.lemma_no_error(outcomes);
    }

    /// The opening fails with the first error that occurs, whatever follows it.
    pub proof fn law_fails_with_the_first_error<E>(
        self,
        outcomes: Seq<Result<(), E>>,
        first: int,
    )
        requires
            0 <= first < outcomes.len(),
            outcomes[first] is Err,
            forall|i: int| 0 <= i < first ==> (#[trigger] outcomes[i]) is Ok,
        ensures
            self.after(outcomes) == Err::<Self, E>(outcomes[first]->Err_0),
        decreases outcomes.len(),
    {
        let before = outcomes.drop_last();
        lemma_shorter_holds_successes(outcomes, first);
        if first == outcomes.len() - 1 {
            self.lemma_no_error(before);
        } else {
            assert(before[first] == outcomes[first]);
            self.law_fails_with_the_first_error(before, first);
        }
    }

    proof fn lemma_no_error<E>(self, outcomes: Seq<Result<(), E>>)
        requires
            forall|i: int| 0 <= i < outcomes.len() ==> (#[trigger] outcomes[i]) is Ok,
        ensures
            self.after(outcomes) is Ok,
            self.after(outcomes)->Ok_0.interface == self.interface,
            self.after(outcomes)->Ok_0.request == self.request,
            self.stage is Opening ==> self.after(outcomes)->Ok_0.stage == if outcomes.len() == 0 {
                OpenStage::Opening
            } else if outcomes.len() == 1 {
                OpenStage::JoiningPrimary
            } else if outcomes.len() == 2 {
                OpenStage::JoiningPdelay
            } else {
                OpenStage::Ready
            },
        decreases outcomes.len(),
    {
        if outcomes.len() > 0 {
            lemma_shorter_holds_successes(outcomes, outcomes.len() - 1);
            self.lemma_no_error(outcomes.drop_last());
            assert(outcomes[outcomes.len() - 1] is Ok);
        }
    }
}

/// Outcomes that start with `count` successes still do when the last outcome,
/// which is not one of these, is taken away.
proof fn lemma_shorter_holds_successes<E>(outcomes: Seq<Result<(), E>>, count: int)
    requires
        0 <= count < outcomes.len(),
        forall|i: int| 0 <= i < count ==> (#[trigger] outcomes[i]) is Ok,
    ensures
        forall|i: int| 0 <= i < count ==> (#[trigger] outcomes.drop_last()[i]) is Ok,
{
    assert forall|i: int| 0 <= i < count implies (#[trigger] outcomes.drop_last()[i]) is Ok by {
        assert(outcomes.drop_last()[i] == outcomes[i]);
    }
}

/// Where a message goes depends on its kind and on whether it is link local, and
/// on nothing else: over any transport the four cases give the four addresses of
/// the transport.
pub proof fn law_targets<A: PtpTargetAddress>(link_local: bool, event: A, general: A)
    requires
        call_ensures(event_target::<A>, (link_local,), event),
        call_ensures(general_target::<A>, (link_local,), general),
    ensures
        link_local ==> event == A::PDELAY_EVENT && general == A::PDELAY_GENERAL,
        !link_local ==> event == A::PRIMARY_EVENT && general == A::PRIMARY_GENERAL,
{
}

/// Over IPv4 an event message goes to port 319 and a general one to port 320 of
/// the same group, which is 224.0.0.107 for what is link local and 224.0.1.129
/// for what is not.
pub proof fn law_ipv4_messages(link_local: bool, event: SocketAddrV4, general: SocketAddrV4)
    requires
        call_ensures(event_target::<SocketAddrV4>, (link_local,), event),
        call_ensures(general_target::<SocketAddrV4>, (link_local,), general),
    ensures
        event.1 == 319,
        general.1 == 320,
        event.0@ == general.0@,
        event.0@.len() == 4,
        event.0@[0] == 224 && event.0@[1] == 0,
        link_local ==> event.0@[2] == 0 && event.0@[3] == 107,
        !link_local ==> event.0@[2] == 1 && event.0@[3] == 129,
{
    law_ipv4_targets(link_local);
}

/// The event socket is opened on port 319 of the interface, with the timestamps
/// and the hardware clock that the caller asks for. The general socket is opened
/// on port 320 of the interface and takes no timestamps.
pub proof fn law_openings_start<I>(
    interface: I,
    timestamping: InterfaceTimestampMode,
    bind_phc: Option<u32>,
    event: SocketOpening<I>,
    general: SocketOpening<I>,
)
    requires
        call_ensures(open_ipv4_event_socket::<I>, (interface, timestamping, bind_phc), event),
        call_ensures(open_ipv4_general_socket::<I>, (interface,), general),
    ensures
        event.stage is Opening && general.stage is Opening,
        event.interface == interface && general.interface == interface,
        event.request.port == 319 && general.request.port == 320,
        event.request.timestamping == timestamping,
        event.request.bind_phc == bind_phc,
        general.request.timestamping is Off,
        general.request.bind_phc is None,
{
}

/// Whether `group` is 224.0.1.129, with port 0.
pub open spec fn is_primary_group(group: SocketAddrV4) -> bool {
    group.1 == 0 && group.0@ == seq![224u8, 0, 1, 129]
}

/// Whether `group` is 224.0.0.107, with port 0.
pub open spec fn is_pdelay_group(group: SocketAddrV4) -> bool {
    group.1 == 0 && group.0@ == seq![224u8, 0, 0, 107]
}

/// What an opening asks for is settled by its stage, whatever it was requested
/// with: the socket that was requested, then the two groups, each on the
/// interface of the opening, and delivery only when it is ready. The request
/// matters while the socket is opened and not after.
pub proof fn law_actions_of_an_opening<I: Copy>(
    opening: SocketOpening<I>,
    other: SocketOpening<I>,
    action: OpenAction<I>,
    other_action: OpenAction<I>,
)
    requires
        call_ensures(SocketOpening::<I>::action, (&opening,), action),
        call_ensures(SocketOpening::<I>::action, (&other,), other_action),
    ensures
        action is Open <==> opening.stage is Opening,
        action is Open ==> action->Open_interface == opening.interface && action->request
            == opening.request,
        action is Join ==> action->Join_interface == opening.interface,
        action is Join && is_primary_group(action->group) <==> opening.stage is JoiningPrimary,
        action is Join && is_pdelay_group(action->group) <==> opening.stage is JoiningPdelay,
        action is Deliver <==> opening.stage is Ready,
        opening.stage == other.stage && opening.interface == other.interface && !(
        opening.stage is Opening) ==> action == other_action,
{
    assert(seq![224u8, 0, 1, 129][3] != seq![224u8, 0, 0, 107][3]);
}

/// A success takes an opening one stage on and changes nothing else of it, so the
/// socket stays on its interface; an error ends it and is handed back as it came.
pub proof fn law_outcomes_of_an_opening<I: Copy, E>(
    opening: SocketOpening<I>,
    outcome: Result<(), E>,
    next: Result<SocketOpening<I>, E>,
)
    requires
        call_ensures(SocketOpening::<I>::completed::<E>, (opening, outcome), next),
    ensures
        next is Ok <==> outcome is Ok,
        outcome is Err ==> next->Err_0 == outcome->Err_0,
        outcome is Ok ==> {
            let stage = next->Ok_0.stage;
            &&& next->Ok_0.interface == opening.interface
            &&& next->Ok_0.request == opening.request
            &&& stage is JoiningPrimary <==> opening.stage is Opening
            &&& stage is JoiningPdelay <==> opening.stage is JoiningPrimary
            &&& stage is Ready <==> opening.stage is JoiningPdelay || opening.stage is Ready
        },
{
}

/// A socket that is delivered was opened as requested and has joined both groups:
/// from its start, an opening asks for the socket, for 224.0.1.129 and for
/// 224.0.0.107, in this order, and then to hand the socket out.
pub proof fn law_delivered_socket_has_joined_both_groups<I: Copy, E>(
    openings: Seq<SocketOpening<I>>,
    actions: Seq<OpenAction<I>>,
)
    requires
        openings.len() == 4 && actions.len() == 4,
        openings[0].stage is Opening,
        forall|i: int|
            0 <= i < 3 ==> call_ensures(
                SocketOpening::<I>::completed::<E>,
                (#[trigger] openings[i], Ok::<(), E>(())),
                Ok::<SocketOpening<I>, E>(openings[i + 1]),
            ),
        forall|i: int|
            0 <= i < 4 ==> call_ensures(
                SocketOpening::<I>::action,
                (&#[trigger] openings[i],),
                actions[i],
            ),
    ensures
        actions[0] is Open,
        actions[0]->Open_interface == openings[0].interface,
        actions[0]->request == openings[0].request,
        actions[1] is Join && is_primary_group(actions[1]->group),
        actions[1]->Join_interface == openings[0].interface,
        actions[2] is Join && is_pdelay_group(actions[2]->group),
        actions[2]->Join_interface == openings[0].interface,
        actions[3] is Deliver,
{
    let done = Ok::<(), E>(());
    law_outcomes_of_an_opening::<I, E>(openings[0], done, Ok(openings[1]));
    law_outcomes_of_an_opening::<I, E>(openings[1], done, Ok(openings[2]));
    law_outcomes_of_an_opening::<I, E>(openings[2], done, Ok(openings[3]));
    law_actions_of_an_opening(openings[0], openings[1], actions[0], actions[1]);
    law_actions_of_an_opening(openings[1], openings[2], actions[1], actions[2]);
    law_actions_of_an_opening(openings[2], openings[3], actions[2], actions[3]);
    law_actions_of_an_opening(openings[3], openings[0], actions[3], actions[0]);
}

} // verus!
