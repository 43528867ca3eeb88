use vstd::prelude::*;

use std::collections::HashMap;

verus! {

broadcast use vstd::std_specs::hash::group_hash_axioms;

/// The session identifier that `uuid` reads from a text, as its 128-bit
/// value, or `None` where the text is no UUID.
pub uninterp spec fn uuid_of_text(s: Seq<char>) -> Option<u128>;

/// Relies on `uuid::Uuid::parse_str` (and `Uuid::as_u128` to hold the value):
/// the identifier a text spells, if any; an empty text spells none.
#[verifier::external_body]
fn parse_uuid(text: &str) -> (r: Option<u128>)
    ensures
        r == uuid_of_text(text@),
        text@.len() == 0 ==> r is None,
{
    uuid::Uuid::parse_str(text).ok().map(|u| u.as_u128())
}

/// Relies on `uuid::Uuid::new_v4`: a random identifier, of which nothing is known.
#[verifier::external_body]
fn random_uuid() -> (r: u128) {
    uuid::Uuid::new_v4().as_u128()
}

/// The session identifier of a new connection, read from its first text
/// frame; where there is none or it is no UUID, a fresh random identifier,
/// under which the connection will never be paired.
pub fn session_id_from_handshake(first_frame: Option<&str>) -> (r: u128)
    ensures
        first_frame matches Some(t) && uuid_of_text(t@) is Some ==> Some(r) == uuid_of_text(
            first_frame.unwrap()@,
        ),
{
    match first_frame {
        Some(text) => match parse_uuid(text) {
            Some(id) => id,
            None => random_uuid(),
        },
        None => random_uuid(),
    }
}

/// The executor-side and display-side connections of one session.
pub struct EndpointPair<C> {
    pub executor: C,
    pub display: C,
}

pub enum PairingResult<C> {
    /// The connection waits for its partner.
    Waiting,
    /// Both sides are here; the registry has let go of the session.
    Paired(EndpointPair<C>),
}

/// What registering `conn` under `id` does to the waiting connections, and
/// what it returns: the first arrival waits, the second is paired with it
/// and the entry is removed.
pub open spec fn register_effect<C>(waiting: Map<u128, C>, id: u128, conn: C) -> (Map<u128, C>, PairingResult<C>) {
    if waiting.contains_key(id) {
        (waiting.remove(id), PairingResult::Paired(EndpointPair { executor: waiting[id], display: conn }))
    } else {
        (waiting.insert(id, conn), PairingResult::Waiting)
    }
}

/// Connections that wait for their partner, by session identifier.
pub struct PairingRegistry<C> {
    waiting: HashMap<u128, C>,
}

impl<C> View for PairingRegistry<C> {
    type V = Map<u128, C>;

    closed spec fn view(&self) -> Map<u128, C> {
        self.waiting@
    }
}

impl<C> PairingRegistry<C> {
    pub fn new() -> (r: Self)
        ensures
            r@ == Map::<u128, C>::empty(),
    {
        PairingRegistry { waiting: HashMap::new() }
    }

    /// Registers a connection under its session identifier.
    pub fn register(&mut self, session_id: u128, conn: C) -> (r: PairingResult<C>)
        ensures
            (final(self)@, r) == register_effect(old(self)@, session_id, conn),
    {
        match self.waiting.remove(&session_id) {
            Some(first) => PairingResult::Paired(EndpointPair { executor: first, display: conn }),
            None => {
                self.waiting.insert(session_id, conn);
                PairingResult::Waiting
            },
        }
    }

    /// Whether a connection waits under this identifier.
    pub fn is_waiting(&self, session_id: u128) -> (r: bool)
        ensures
            r == self@.contains_key(session_id),
    {
        self.waiting.contains_key(&session_id)
    }

    pub fn len(&self) -> (r: usize)
        ensures
            r == self@.len(),
    {
        self.waiting.len()
    }
}

/// Pairing happens exactly once per arrival of a partner: of three
/// connections under one new identifier, the first waits, the second is
/// paired with the first and removes the entry, and the third is not paired
/// with either but waits on its own.
pub proof fn lemma_pairing_exactly_once<C>(waiting: Map<u128, C>, id: u128, c1: C, c2: C, c3: C)
    requires
        !waiting.contains_key(id),
    ensures
        ({
            let (m1, r1) = register_effect(waiting, id, c1);
            let (m2, r2) = register_effect(m1, id, c2);
            let (m3, r3) = register_effect(m2, id, c3);
            &&& r1 is Waiting
            &&& r2 == PairingResult::Paired(EndpointPair { executor: c1, display: c2 })
            &&& !m2.contains_key(id)
            &&& m2 == waiting
            &&& r3 is Waiting
            &&& m3 == waiting.insert(id, c3)
        }),
{
    let m1 = waiting.insert(id, c1);
    assert(m1.remove(id) =~= waiting);
}

/// A pair, once delivered, leaves no entry under its identifier.
pub proof fn lemma_paired_entry_removed<C>(waiting: Map<u128, C>, id: u128, conn: C)
    ensures
        register_effect(waiting, id, conn).1 is Paired ==> !register_effect(
            waiting,
            id,
            conn,
        ).0.contains_key(id),
{
}

} // verus!
