use vstd::prelude::*;
use crate::entities::{Entity, Stats, Defender};
use crate::messaging::{Message, message_ok};

verus! {

/// Number of delvers in every party.
pub const PARTY_SIZE: usize = 4;

/// The atomic unit of simulated change.
pub struct Event {
    pub target: Entity,
    pub source: Entity,
    pub message: Message,
    pub event_type: EventType,
}

pub enum EventType {
    Damage(i8),
    Heal(i8),
    Delve,
    Death,
    EndGame,
    /// Changes nothing; its message is still narrated.
    Log,
    /// A stat check with a fraction `difficulty` (in thousandths): the
    /// outcome's success or fail events are scheduled.
    Roll { difficulty: u32, stat: Stats, outcomes: Outcomes },
    /// `success` with probability `chance / SCALE`, else `fail`.
    Chance { chance: u32, success: Box<Event>, fail: Box<Event> },
    ClearRoom,
    StartBossFight,
    SpawnDefender(Defender),
    /// Asks the phase machine for more events.
    Tick,
    Cancelled,
}

/// Whether a reference is in range: a delver below the party size, a
/// defender below `nf` (the number spawned so far); other kinds always are.
pub open spec fn entity_ok(e: Entity, nf: nat) -> bool {
    match e {
        Entity::Delver { index } => index < PARTY_SIZE,
        Entity::Defender { index } => index < nf,
        _ => true,
    }
}

/// A delver or a defender, in range.
pub open spec fn character_ok(e: Entity, nf: nat) -> bool {
    &&& (e is Delver || e is Defender)
    &&& entity_ok(e, nf)
}

/// Every reference in the event, in its message and in its nested outcome
/// events is in range, and every delve is led by a delver.
pub open spec fn event_ok(e: Event, nf: nat) -> bool
    decreases e,
{
    &&& entity_ok(e.target, nf)
    &&& entity_ok(e.source, nf)
    &&& message_ok(e.message, nf)
    &&& e.event_type is Delve ==> e.source is Delver
    &&& match e.event_type {
        EventType::Roll { outcomes, .. } => {
            &&& forall|i: int| 0 <= i < outcomes.success.len() ==> event_ok(#[trigger] outcomes.success[i], nf)
            &&& forall|i: int| 0 <= i < outcomes.fail.len() ==> event_ok(#[trigger] outcomes.fail[i], nf)
        },
        EventType::Chance { success, fail, .. } => event_ok(*success, nf) && event_ok(*fail, nf),
        _ => true,
    }
}

pub open spec fn events_ok(es: Seq<Event>, nf: nat) -> bool {
    forall|i: int| 0 <= i < es.len() ==> event_ok(#[trigger] es[i], nf)
}

/// Validity survives more defenders being spawned.
pub proof fn lemma_event_ok_grows(e: Event, nf: nat, nf2: nat)
    requires
        event_ok(e, nf),
        nf <= nf2,
    ensures
        event_ok(e, nf2),
    decreases e,
{
    match e.event_type {
        EventType::Roll { outcomes, .. } => {
            assert forall|i: int| 0 <= i < outcomes.success.len() implies event_ok(#[trigger] outcomes.success[i], nf2) by {
                lemma_event_ok_grows(outcomes.success[i], nf, nf2);
            }
            assert forall|i: int| 0 <= i < outcomes.fail.len() implies event_ok(#[trigger] outcomes.fail[i], nf2) by {
                lemma_event_ok_grows(outcomes.fail[i], nf, nf2);
            }
        },
        EventType::Chance { success, fail, .. } => {
            lemma_event_ok_grows(*success, nf, nf2);
            lemma_event_ok_grows(*fail, nf, nf2);
        },
        _ => {},
    }
}

pub proof fn lemma_events_ok_grows(es: Seq<Event>, nf: nat, nf2: nat)
    requires
        events_ok(es, nf),
        nf <= nf2,
    ensures
        events_ok(es, nf2),
{
    assert forall|i: int| 0 <= i < es.len() implies event_ok(#[trigger] es[i], nf2) by {
        lemma_event_ok_grows(es[i], nf, nf2);
    }
}

impl Event {
    pub fn cancelled() -> (r: Event)
        ensures
            r.event_type is Cancelled,
            r.target is Nothing && r.source is Nothing && r.message is Nothing,
    {
        Event::type_only(EventType::Cancelled)
    }

    pub fn type_only(event_type: EventType) -> (r: Event)
        ensures
            r.event_type == event_type,
            r.target is Nothing && r.source is Nothing && r.message is Nothing,
    {
        Event { event_type, target: Entity::Nothing, source: Entity::Nothing, message: Message::Nothing }
    }

    pub fn type_and_message(event_type: EventType, message: Message) -> (r: Event)
        ensures
            r.event_type == event_type,
            r.target is Nothing && r.source is Nothing,
            r.message == message,
    {
        Event { event_type, target: Entity::Nothing, source: Entity::Nothing, message }
    }
}

/// The two event lists a roll chooses between.
pub struct Outcomes {
    pub success: Vec<Event>,
    pub fail: Vec<Event>,
}

impl Outcomes {
    pub fn get(self, success: bool) -> (r: Vec<Event>)
        ensures
            r == (if success { self.success } else { self.fail }),
    {
        if success {
            self.success
        } else {
            self.fail
        }
    }
}

/// Outcomes that also carry one event to resolve at once on each branch.
pub struct OutcomesWithImmediate {
    pub immediate_success: Event,
    pub success: Vec<Event>,
    pub immediate_fail: Event,
    pub fail: Vec<Event>,
}

impl OutcomesWithImmediate {
    pub fn get(self, success: bool) -> (r: (Event, Vec<Event>))
        ensures
            r == (if success { (self.immediate_success, self.success) } else { (self.immediate_fail, self.fail) }),
    {
        if success {
            (self.immediate_success, self.success)
        } else {
            (self.immediate_fail, self.fail)
        }
    }
}

/// Pending events as a stack: the last element resolves next, so whatever
/// is pushed runs before everything already waiting.
pub struct EventQueue {
    pub events: Vec<Event>,
}

impl EventQueue {
    pub fn new_queue() -> (r: EventQueue)
        ensures
            r.events@.len() == 0,
    {
        EventQueue { events: Vec::new() }
    }

    /// Schedules `event` to resolve next.
    pub fn push(&mut self, event: Event)
        ensures
            final(self).events@ == old(self).events@.push(event),
    {
        self.events.push(event);
    }

    /// Schedules a narration line to resolve next.
    pub fn log(&mut self, message: Message)
        ensures
            final(self).events@ == old(self).events@.push(Event {
                event_type: EventType::Log,
                target: Entity::Nothing,
                source: Entity::Nothing,
                message,
            }),
    {
        self.events.push(Event::type_and_message(EventType::Log, message));
    }

    /// Schedules a list of events; its last one resolves next.
    pub fn push_all(&mut self, events: Vec<Event>)
        ensures
            final(self).events@ == old(self).events@ + events@,
    {
        let mut events = events;
        self.events.append(&mut events);
    }
}


pub fn entity_is_ok(e: Entity, nf: usize) -> (r: bool)
    ensures
        r == entity_ok(e, nf as nat),
{
    match e {
        Entity::Delver { index } => index < PARTY_SIZE,
        Entity::Defender { index } => index < nf,
        _ => true,
    }
}

pub fn character_is_ok(e: Entity, nf: usize) -> (r: bool)
    ensures
        r == character_ok(e, nf as nat),
{
    match e {
        Entity::Delver { .. } | Entity::Defender { .. } => entity_is_ok(e, nf),
        _ => false,
    }
}

pub fn message_is_ok(m: &Message, nf: usize) -> (r: bool)
    ensures
        r == message_ok(*m, nf as nat),
{
    match m {
        Message::Attack(a, b, _) => character_is_ok(*a, nf) && character_is_ok(*b, nf),
        Message::Heal(a, b, _) => character_is_ok(*a, nf) && character_is_ok(*b, nf),
        Message::BeginNavigation(a) => character_is_ok(*a, nf),
        Message::Delve(a) => character_is_ok(*a, nf),
        Message::FailedNavigation(a) => character_is_ok(*a, nf),
        Message::Death(a) => character_is_ok(*a, nf),
        _ => true,
    }
}

/// Checks every reference of an event and of its nested events.
pub fn event_is_ok(e: &Event, nf: usize) -> (r: bool)
    ensures
        r == event_ok(*e, nf as nat),
    decreases *e,
{
    if !entity_is_ok(e.target, nf) || !entity_is_ok(e.source, nf) || !message_is_ok(&e.message, nf) {
        return false;
    }
    if let EventType::Delve = e.event_type {
        if let Entity::Delver { .. } = e.source {
        } else {
            return false;
        }
    }
    match &e.event_type {
        EventType::Roll { outcomes, .. } => {
            let a = events_are_ok_within(&outcomes.success, nf, e);
            let b = events_are_ok_within(&outcomes.fail, nf, e);
            a && b
        },
        EventType::Chance { success, fail, .. } => event_is_ok(success, nf) && event_is_ok(fail, nf),
        _ => true,
    }
}

/// Checks every event of a list nested in `outer`.
fn events_are_ok_within(es: &Vec<Event>, nf: usize, outer: &Event) -> (r: bool)
    requires
        decreases_to!(*outer => *es),
    ensures
        r == forall|i: int| 0 <= i < es.len() ==> event_ok(#[trigger] es[i], nf as nat),
    decreases *outer, 0int,
{
    let mut i: usize = 0;
    while i < es.len()
        invariant
            i <= es.len(),
            decreases_to!(*outer => *es),
            forall|j: int| 0 <= j < i ==> event_ok(#[trigger] es[j], nf as nat),
        decreases es.len() - i,
    {
        proof {
            vstd::std_specs::vec::axiom_vec_index_decreases(*es, i as int);
        }
        if !event_is_ok(&es[i], nf) {
            return false;
        }
        i = i + 1;
    }
    true
}

} // verus!
