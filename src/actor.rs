use std::collections::HashSet;
use vstd::prelude::*;

use crate::ident::{new_random_id, VERSION_VARIANT_BITS, VERSION_VARIANT_MASK};
use crate::object::{lists_exactly, moved, DefinedObject, DefinedObjectWithId, Object, ObjectStore, Position};

verus! {

/// An action as it is applied and reported: a created object carries the
/// identifier that the coordinator gave it.
#[derive(Debug)]
pub enum ObjectServerAction {
    /// Create a new object under `id`.
    CreateObject { id: u128, object: Object, initial_position: Position },
    /// Move an existing object.
    MoveObject { id: u128, position: Position },
    /// Remove a specific object.
    RemoveObject { id: u128 },
    /// Remove every object.
    ClearObjects,
}

/// An action as a session submits it: a creation names no identifier, the
/// coordinator assigns one.
#[derive(Debug)]
pub enum ActionRequest {
    CreateObject { object: Object, initial_position: Position },
    MoveObject { id: u128, position: Position },
    RemoveObject { id: u128 },
    ClearObjects,
}

/// A change notification: the applied action and the session it came from.
#[derive(Debug)]
pub enum BroadcastMessage {
    ServerActionReported { session_id: u128, action: ObjectServerAction },
}

/// A command on the coordinator's inbound queue.
#[derive(Debug)]
pub enum ObjectServerMessage {
    /// An action submitted by a session.
    Action { session_id: u128, action: ActionRequest },
    /// A request for a snapshot of the store.
    RequestObjects,
}

/// What the coordinator hands back for one command.
#[derive(Debug)]
pub enum CoordinatorOutput {
    /// The notification to publish to every subscriber.
    Broadcast(BroadcastMessage),
    /// The snapshot that answers a `RequestObjects`.
    Objects(Vec<DefinedObjectWithId>),
    /// No unused identifier could be drawn for a creation: nothing was applied.
    Unapplied,
}

impl Clone for ObjectServerAction {
    fn clone(&self) -> (r: Self)
        ensures
            r == *self,
    {
        match self {
            ObjectServerAction::CreateObject { id, object, initial_position } => {
                ObjectServerAction::CreateObject {
                    id: *id,
                    object: object.clone(),
                    initial_position: *initial_position,
                }
            },
            ObjectServerAction::MoveObject { id, position } => ObjectServerAction::MoveObject {
                id: *id,
                position: *position,
            },
            ObjectServerAction::RemoveObject { id } => ObjectServerAction::RemoveObject { id: *id },
            ObjectServerAction::ClearObjects => ObjectServerAction::ClearObjects,
        }
    }
}

impl Clone for BroadcastMessage {
    fn clone(&self) -> (r: Self)
        ensures
            r == *self,
    {
        match self {
            BroadcastMessage::ServerActionReported { session_id, action } => {
                BroadcastMessage::ServerActionReported {
                    session_id: *session_id,
                    action: action.clone(),
                }
            },
        }
    }
}

/// The store after applying one action to `m`.
pub open spec fn apply_action(m: Map<u128, DefinedObject>, a: ObjectServerAction) -> Map<
    u128,
    DefinedObject,
> {
    match a {
        ObjectServerAction::CreateObject { id, object, initial_position } => m.insert(
            id,
            DefinedObject { position: initial_position, object },
        ),
        ObjectServerAction::MoveObject { id, position } => moved(m, id, position),
        ObjectServerAction::RemoveObject { id } => m.remove(id),
        ObjectServerAction::ClearObjects => Map::empty(),
    }
}

/// The store after applying `actions` to `m`, first to last.
pub open spec fn apply_all(m: Map<u128, DefinedObject>, actions: Seq<ObjectServerAction>) -> Map<
    u128,
    DefinedObject,
>
    decreases actions.len(),
{
    if actions.len() == 0 {
        m
    } else {
        apply_action(apply_all(m, actions.drop_last()), actions.last())
    }
}

/// The action that `request` becomes when the coordinator has `fresh_id` to
/// give a new object.
pub open spec fn resolve(request: ActionRequest, fresh_id: u128) -> ObjectServerAction {
    match request {
        ActionRequest::CreateObject { object, initial_position } => {
            ObjectServerAction::CreateObject { id: fresh_id, object, initial_position }
        },
        ActionRequest::MoveObject { id, position } => ObjectServerAction::MoveObject { id, position },
        ActionRequest::RemoveObject { id } => ObjectServerAction::RemoveObject { id },
        ActionRequest::ClearObjects => ObjectServerAction::ClearObjects,
    }
}

/// The identifier that an action names, if any.
pub open spec fn action_id(a: ObjectServerAction) -> Option<u128> {
    match a {
        ObjectServerAction::CreateObject { id, .. } => Some(id),
        ObjectServerAction::MoveObject { id, .. } => Some(id),
        ObjectServerAction::RemoveObject { id } => Some(id),
        ObjectServerAction::ClearObjects => None,
    }
}

/// `ids` with the identifier that `a` names added.
pub open spec fn with_id_of(ids: Set<u128>, a: ObjectServerAction) -> Set<u128> {
    match action_id(a) {
        Some(id) => ids.insert(id),
        None => ids,
    }
}

/// How many random identifiers the coordinator draws, at most, before it gives
/// up on a creation.
pub const MINT_ATTEMPTS: u32 = 8;

/// The single owner of the object store. It applies commands one at a time, in
/// the order given, remembers (as ghost state) every action applied so far,
/// and keeps every identifier it has given out or seen named, so that none is
/// given out twice.
pub struct ObjectsActor {
    object_store: ObjectStore,
    issued_ids: HashSet<u128>,
    applied: Ghost<Seq<ObjectServerAction>>,
}

/// What `submit_action` promises: a creation fails only when no unused
/// identifier was drawn, and then nothing changes; an applied action is
/// reported once, and a created object gets an identifier that was never given
/// out or named before, with the bits of a random UUID.
pub open spec fn submitted(
    before: ObjectsActor,
    after: ObjectsActor,
    session_id: u128,
    request: ActionRequest,
    outcome: Option<BroadcastMessage>,
) -> bool {
    &&& !(request is CreateObject) ==> outcome is Some
    &&& outcome is None ==> {
        &&& after.history() == before.history()
        &&& after.objects() == before.objects()
        &&& after.issued() == before.issued()
    }
    &&& outcome matches Some(note) ==> exists|fresh_id: u128|
        {
            &&& note == BroadcastMessage::ServerActionReported {
                session_id,
                action: #[trigger] resolve(request, fresh_id),
            }
            &&& after.history() == before.history().push(resolve(request, fresh_id))
            &&& after.objects() == apply_action(before.objects(), resolve(request, fresh_id))
            &&& after.issued() == with_id_of(before.issued(), resolve(request, fresh_id))
            &&& request is CreateObject ==> {
                &&& !before.issued().contains(fresh_id)
                &&& !before.objects().contains_key(fresh_id)
                &&& fresh_id & VERSION_VARIANT_MASK == VERSION_VARIANT_BITS
            }
        }
}

/// The notification in a coordinator output, if it holds one.
pub open spec fn broadcast_of(out: CoordinatorOutput) -> Option<BroadcastMessage> {
    match out {
        CoordinatorOutput::Broadcast(note) => Some(note),
        _ => None,
    }
}

impl ObjectsActor {
    /// The current contents of the store.
    pub closed spec fn objects(&self) -> Map<u128, DefinedObject> {
        self.object_store@
    }

    /// Every action applied so far, oldest first.
    pub closed spec fn history(&self) -> Seq<ObjectServerAction> {
        self.applied@
    }

    /// Every identifier given out or named by an applied action so far.
    pub closed spec fn issued(&self) -> Set<u128> {
        self.issued_ids@
    }

    /// The store is what applying the history to an empty store gives, and
    /// every identifier in the store or in the history has been recorded.
    pub open spec fn wf(&self) -> bool {
        &&& self.objects() == apply_all(Map::empty(), self.history())
        &&& forall|k: u128| #[trigger] self.objects().contains_key(k) ==> self.issued().contains(k)
        &&& forall|i: int|
            0 <= i < self.history().len() && action_id(#[trigger] self.history()[i]) is Some
                ==> self.issued().contains(action_id(self.history()[i])->Some_0)
    }

    /// A coordinator with an empty store and no history.
    pub fn create() -> (r: Self)
        ensures
            r.wf(),
            r.history() == Seq::<ObjectServerAction>::empty(),
            r.objects() == Map::<u128, DefinedObject>::empty(),
            r.issued() == Set::<u128>::empty(),
    {
        ObjectsActor {
            object_store: ObjectStore::new(),
            issued_ids: HashSet::new(),
            applied: Ghost(Seq::empty()),
        }
    }

    /// Applies `request` from `session_id`, giving a created object the
    /// identifier `fresh_id`, which must not have been given out or named
    /// before, and returns the one notification it owes.
    pub fn handle_server_action(&mut self, session_id: u128, request: ActionRequest, fresh_id: u128) -> (r: BroadcastMessage)
        requires
            old(self).wf(),
            request is CreateObject ==> !old(self).issued().contains(fresh_id),
        ensures
            final(self).wf(),
            final(self).history() == old(self).history().push(resolve(request, fresh_id)),
            final(self).objects() == apply_action(old(self).objects(), resolve(request, fresh_id)),
            final(self).issued() == with_id_of(old(self).issued(), resolve(request, fresh_id)),
            request is CreateObject ==> !old(self).objects().contains_key(fresh_id),
            r == (BroadcastMessage::ServerActionReported {
                session_id,
                action: resolve(request, fresh_id),
            }),
    {
        let action = match request {
            ActionRequest::CreateObject { object, initial_position } => {
                self.object_store.insert(
                    fresh_id,
                    DefinedObject { position: initial_position, object: object.clone() },
                );
                self.issued_ids.insert(fresh_id);
                ObjectServerAction::CreateObject { id: fresh_id, object, initial_position }
            },
            ActionRequest::MoveObject { id, position } => {
                self.object_store.move_if_present(id, position);
                self.issued_ids.insert(id);
                ObjectServerAction::MoveObject { id, position }
            },
            ActionRequest::RemoveObject { id } => {
                self.object_store.remove(id);
                self.issued_ids.insert(id);
                ObjectServerAction::RemoveObject { id }
            },
            ActionRequest::ClearObjects => {
                self.object_store.clear();
                ObjectServerAction::ClearObjects
            },
        };
        proof {
            let h = self.applied@.push(action);
            assert(h.drop_last() =~= old(self).history());
            self.applied = Ghost(h);
            assert forall|i: int|
                0 <= i < self.history().len() && action_id(#[trigger] self.history()[i]) is Some
                    implies self.issued().contains(action_id(self.history()[i])->Some_0) by {
                if i < old(self).history().len() {
                    assert(self.history()[i] == old(self).history()[i]);
                }
            }
        }
        BroadcastMessage::ServerActionReported { session_id, action }
    }

    /// Draws random identifiers until one has not been given out or named
    /// before, at most `MINT_ATTEMPTS` times.
    fn mint_id(&self) -> (r: Option<u128>)
        ensures
            r matches Some(id) ==> !self.issued().contains(id) && id & VERSION_VARIANT_MASK
                == VERSION_VARIANT_BITS,
    {
        let mut attempt: u32 = 0;
        while attempt < MINT_ATTEMPTS
            invariant
                attempt <= MINT_ATTEMPTS,
            decreases MINT_ATTEMPTS - attempt,
        {
            let id = new_random_id();
            if !self.issued_ids.contains(&id) {
                return Some(id);
            }
            attempt = attempt + 1;
        }
        None
    }

    /// Applies `request` from `session_id`; a created object gets a fresh
    /// random identifier. Returns `None`, changing nothing, only for a creation
    /// for which no unused identifier was drawn.
    pub fn submit_action(&mut self, session_id: u128, request: ActionRequest) -> (r: Option<BroadcastMessage>)
        requires
            old(self).wf(),
        ensures
            final(self).wf(),
            submitted(*old(self), *final(self), session_id, request, r),
    {
        let is_create = match &request {
            ActionRequest::CreateObject { .. } => true,
            _ => false,
        };
        if is_create {
            match self.mint_id() {
                Some(fresh_id) => {
                    let note = self.handle_server_action(session_id, request, fresh_id);
                    assert(note == BroadcastMessage::ServerActionReported {
                        session_id,
                        action: resolve(request, fresh_id),
                    });
                    Some(note)
                },
                None => None,
            }
        } else {
            let note = self.handle_server_action(session_id, request, 0);
            assert(note == BroadcastMessage::ServerActionReported {
                session_id,
                action: resolve(request, 0),
            });
            Some(note)
        }
    }

    /// A copy of the whole store: what the history so far gives.
    pub fn snapshot(&self) -> (r: Vec<DefinedObjectWithId>)
        requires
            self.wf(),
        ensures
            lists_exactly(r@, apply_all(Map::empty(), self.history())),
    {
        self.object_store.to_vec()
    }

    /// Handles one command of the inbound queue: an action is applied and its
    /// notification returned; a snapshot request is answered with the store.
    pub fn run(&mut self, message: ObjectServerMessage) -> (r: CoordinatorOutput)
        requires
            old(self).wf(),
        ensures
            final(self).wf(),
            match message {
                ObjectServerMessage::Action { session_id, action } => {
                    &&& !(r is Objects)
                    &&& submitted(*old(self), *final(self), session_id, action, broadcast_of(r))
                },
                ObjectServerMessage::RequestObjects => {
                    &&& final(self).history() == old(self).history()
                    &&& final(self).objects() == old(self).objects()
                    &&& final(self).issued() == old(self).issued()
                    &&& r matches CoordinatorOutput::Objects(objects) && lists_exactly(
                        objects@,
                        apply_all(Map::empty(), old(self).history()),
                    )
                },
            },
    {
        match message {
            ObjectServerMessage::Action { session_id, action } => {
                match self.submit_action(session_id, action) {
                    Some(note) => CoordinatorOutput::Broadcast(note),
                    None => CoordinatorOutput::Unapplied,
                }
            },
            ObjectServerMessage::RequestObjects => CoordinatorOutput::Objects(self.snapshot()),
        }
    }
}

/// Applying `first` and then `second` is applying their concatenation.
pub proof fn lemma_apply_all_concat(
    m: Map<u128, DefinedObject>,
    first: Seq<ObjectServerAction>,
    second: Seq<ObjectServerAction>,
)
    ensures
        apply_all(m, first + second) == apply_all(apply_all(m, first), second),
    decreases second.len(),
{
    if second.len() == 0 {
        assert(first + second =~= first);
    } else {
        lemma_apply_all_concat(m, first, second.drop_last());
        assert((first + second).drop_last() =~= first + second.drop_last());
    }
}

/// Determinism: whatever actions a coordinator applies after a given state,
/// in whatever interleaving of sessions they arrived, the store it ends with is
/// what applying them in arrival order to the earlier store gives; from a new
/// coordinator, what applying them to an empty store gives.
pub proof fn lemma_store_is_replay(before: ObjectsActor, after: ObjectsActor, applied: Seq<ObjectServerAction>)
    requires
        before.wf(),
        after.wf(),
        after.history() == before.history() + applied,
    ensures
        after.objects() == apply_all(before.objects(), applied),
        before.history().len() == 0 ==> after.objects() == apply_all(Map::empty(), applied),
{
    lemma_apply_all_concat(Map::empty(), before.history(), applied);
    if before.history().len() == 0 {
        assert(before.history() + applied =~= applied);
    }
}

/// Two coordinators that applied the same actions in the same order hold the
/// same store, whatever sessions sent them and whenever they arrived.
pub proof fn lemma_same_history_same_store(a: ObjectsActor, b: ObjectsActor)
    requires
        a.wf(),
        b.wf(),
        a.history() == b.history(),
    ensures
        a.objects() == b.objects(),
{
}

/// A snapshot requested after action `a` and before action `b` shows the
/// store with `a` applied, and is the store as it stood before `b` was applied.
pub proof fn lemma_snapshot_between(
    before_a: ObjectsActor,
    at_request: ObjectsActor,
    after_b: ObjectsActor,
    a: ObjectServerAction,
    b: ObjectServerAction,
)
    requires
        before_a.wf(),
        at_request.wf(),
        after_b.wf(),
        at_request.history() == before_a.history().push(a),
        after_b.history() == at_request.history().push(b),
    ensures
        apply_all(Map::empty(), at_request.history()) == apply_action(before_a.objects(), a),
        after_b.objects() == apply_action(apply_all(Map::empty(), at_request.history()), b),
{
    assert(at_request.history().drop_last() =~= before_a.history());
    assert(after_b.history().drop_last() =~= at_request.history());
}

/// Moving or removing an identifier that is not in the store leaves the store
/// as it was.
pub proof fn lemma_absent_target_is_noop(m: Map<u128, DefinedObject>, id: u128, position: Position)
    requires
        !m.contains_key(id),
    ensures
        apply_action(m, ObjectServerAction::MoveObject { id, position }) == m,
        apply_action(m, ObjectServerAction::RemoveObject { id }) == m,
{
    assert(m.remove(id) =~= m);
}

/// A snapshot taken right after a clear holds no entry.
pub proof fn lemma_clear_then_snapshot_is_empty(
    history: Seq<ObjectServerAction>,
    entries: Seq<DefinedObjectWithId>,
)
    requires
        history.len() > 0,
        history.last() == ObjectServerAction::ClearObjects,
        lists_exactly(entries, apply_all(Map::empty(), history)),
    ensures
        entries.len() == 0,
{
    assert(apply_all(Map::empty(), history) == Map::<u128, DefinedObject>::empty());
    assert(Map::<u128, DefinedObject>::empty().dom() =~= Set::empty());
}

} // verus!
