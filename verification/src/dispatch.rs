//! Outbound activity dispatch: build the activity, compute the recipient
//! inbox set (one shared inbox per host, duplicates collapsed), and after
//! all deliveries were attempted, record the activity and aggregate
//! per-recipient failures into a partial-failure result. The transport that
//! performs each delivery, and the clock that sleeps between retries, are
//! the caller's; the decisions stand here.

use crate::activity::{insert_activity, ActivityLog, ActivityRecordView};
use crate::actor::{
    shared_inbox_from_parts, shared_inbox_seq, ActorIdentity, ActorVariant, ActorView,
};
use crate::convert::{FederatedObject, ObjectView, ToApub};
use crate::error::FederationError;
use crate::ident::{ApubUrl, UrlView};
use vstd::prelude::*;

verus! {

/// The views of a sequence of strings.
pub open spec fn strs_view(v: Seq<String>) -> Seq<Seq<char>> {
    Seq::new(v.len(), |i: int| v[i]@)
}

/// Every identifier carries a host, so every shared inbox can be derived.
pub open spec fn all_hosted(fs: Seq<ApubUrl>) -> bool {
    forall|i: int| 0 <= i < fs.len() ==> fs[i]@.host is Some
}

/// The shared inbox of each identifier, in order.
pub open spec fn shared_seq(fs: Seq<ApubUrl>) -> Seq<Seq<char>> {
    Seq::new(fs.len(), |j: int| shared_inbox_seq(fs[j]@))
}

/// Collapse duplicates, keeping each element at its first occurrence.
pub open spec fn dedup_first(s: Seq<Seq<char>>) -> Seq<Seq<char>>
    decreases s.len(),
{
    if s.len() == 0 {
        Seq::empty()
    } else {
        let init = dedup_first(s.drop_last());
        if init.contains(s.last()) {
            init
        } else {
            init.push(s.last())
        }
    }
}

/// The delivery targets of a follower set: the followers' shared inboxes in
/// first-occurrence order, one per host, duplicates collapsed.
pub open spec fn planned_targets(fs: Seq<ApubUrl>) -> Seq<Seq<char>> {
    dedup_first(shared_seq(fs))
}

proof fn lemma_dedup_first_no_duplicates(s: Seq<Seq<char>>)
    ensures
        dedup_first(s).no_duplicates(),
    decreases s.len(),
{
    if s.len() > 0 {
        lemma_dedup_first_no_duplicates(s.drop_last());
        let init = dedup_first(s.drop_last());
        if !init.contains(s.last()) {
            assert forall|i: int, j: int|
                0 <= i < init.push(s.last()).len() && 0 <= j < init.push(s.last()).len() && i
                    != j implies init.push(s.last())[i] != init.push(s.last())[j] by {
                if i == init.len() {
                    assert(init.push(s.last())[j] == init[j]);
                } else if j == init.len() {
                    assert(init.push(s.last())[i] == init[i]);
                }
            }
        }
    }
}

/// Law: the planned target list never names an inbox twice, however many
/// followers share a host.
pub proof fn lemma_planned_targets_no_duplicates(fs: Seq<ApubUrl>)
    ensures
        planned_targets(fs).no_duplicates(),
{
    lemma_dedup_first_no_duplicates(shared_seq(fs));
}

fn vec_contains_str(v: &Vec<String>, s: &String) -> (r: bool)
    ensures
        r == exists|k: int| 0 <= k < v@.len() && v@[k]@ == s@,
{
    let n = v.len();
    let mut i: usize = 0;
    while i < n
        invariant
            i <= n,
            n == v@.len(),
            forall|k: int| 0 <= k < i ==> v@[k]@ != s@,
        decreases n - i,
    {
        if v[i].eq(s) {
            return true;
        }
        i += 1;
    }
    false
}

/// Compute the delivery targets for a set of followers: one shared inbox
/// per host, duplicates collapsed. Fails when a follower identifier has no
/// host to derive a shared inbox from.
#[verifier::rlimit(60)]
pub fn collect_inbox_targets(followers: &Vec<ApubUrl>) -> (r: Result<Vec<String>, FederationError>)
    ensures
        r is Ok <==> all_hosted(followers@),
        r matches Ok(v) ==> strs_view(v@) == planned_targets(followers@),
        r matches Err(e) ==> e == FederationError::MalformedActorId,
{
    let n = followers.len();
    let mut out: Vec<String> = Vec::new();
    let mut i: usize = 0;
    assert(strs_view(out@) =~= dedup_first(shared_seq(followers@.take(0))));
    while i < n
        invariant
            i <= n,
            n == followers@.len(),
            forall|j: int| 0 <= j < i ==> followers@[j]@.host is Some,
            strs_view(out@) == dedup_first(shared_seq(followers@.take(i as int))),
        decreases n - i,
    {
        let inbox = match shared_inbox_from_parts(&followers[i]) {
            Ok(s) => s,
            Err(_) => {
                assert(!all_hosted(followers@));
                return Err(FederationError::MalformedActorId);
            },
        };
        let ghost prefix = shared_seq(followers@.take(i as int));
        let ghost extended = shared_seq(followers@.take(i + 1));
        proof {
            assert(extended.drop_last() =~= prefix);
            assert(extended.last() == inbox@);
        }
        if !vec_contains_str(&out, &inbox) {
            let ghost old_out = out@;
            proof {
                assert forall|k: int| 0 <= k < old_out.len() implies strs_view(old_out)[k]
                    != inbox@ by {}
                assert(!dedup_first(prefix).contains(inbox@));
            }
            out.push(inbox);
            assert(strs_view(out@) =~= strs_view(old_out).push(inbox@));
        } else {
            proof {
                let k = choose|k: int| 0 <= k < out@.len() && out@[k]@ == inbox@;
                assert(strs_view(out@)[k] == inbox@);
                assert(dedup_first(prefix).contains(inbox@));
            }
        }
        i += 1;
    }
    proof {
        assert(followers@.take(n as int) =~= followers@);
    }
    Ok(out)
}

/// Mathematical model of an outbound activity.
pub ghost struct ActivityMessageView {
    pub kind: Seq<char>,
    pub actor: Seq<char>,
    pub object: ObjectView,
}

/// An outbound activity: the verb's vocabulary tag, the acting actor's
/// identifier, and the object the activity speaks of.
pub struct ActivityMessage {
    pub kind: String,
    pub actor: String,
    pub object: FederatedObject,
}

impl View for ActivityMessage {
    type V = ActivityMessageView;

    open spec fn view(&self) -> ActivityMessageView {
        ActivityMessageView { kind: self.kind@, actor: self.actor@, object: self.object@ }
    }
}

/// What one lifecycle or reaction call decides: the activity to sign and
/// deliver, the inboxes to deliver it to, and the acting user's local id
/// for the activity-log insert that follows the deliveries.
pub struct DeliveryPlan {
    pub activity: ActivityMessage,
    pub targets: Vec<String>,
    pub sender_user_id: i32,
}

/// The contract every dispatch verb meets: on success the plan carries the
/// verb's tag, the acting actor and the object's wire form, and its targets
/// are exactly the followers' shared inboxes, one per host; it fails only
/// where a follower identifier has no host.
pub open spec fn delivery_plan_spec(
    r: Result<DeliveryPlan, FederationError>,
    kind: Seq<char>,
    actor: ActorView,
    wire: ObjectView,
    followers: Seq<ApubUrl>,
) -> bool {
    match r {
        Ok(p) => {
            &&& all_hosted(followers)
            &&& p.activity@.kind == kind
            &&& p.activity@.actor == actor.actor_id
            &&& p.activity@.object == wire
            &&& p.sender_user_id == actor.user_id
            &&& strs_view(p.targets@) == planned_targets(followers)
        },
        Err(e) => !all_hosted(followers) && e == FederationError::MalformedActorId,
    }
}

fn plan_delivery(
    kind: &str,
    actor: &ActorIdentity,
    object: FederatedObject,
    followers: &Vec<ApubUrl>,
) -> (r: Result<DeliveryPlan, FederationError>)
    ensures
        delivery_plan_spec(r, kind@, actor@, object@, followers@),
{
    let targets = match collect_inbox_targets(followers) {
        Ok(t) => t,
        Err(e) => {
            return Err(e);
        },
    };
    Ok(
        DeliveryPlan {
            activity: ActivityMessage {
                kind: kind.to_owned(),
                actor: actor.actor_id.clone(),
                object,
            },
            targets,
            sender_user_id: actor.user_id,
        },
    )
}

/// Lifecycle dispatch: each verb decides the activity and the recipient
/// set for one state change of a content entity. The caller delivers one
/// signed request per target and then records the activity.
pub trait ApubObjectType: ToApub {
    /// Announce creation to the creator's followers.
    fn send_create(&self, creator: &ActorIdentity, followers: &Vec<ApubUrl>) -> (r: Result<
        DeliveryPlan,
        FederationError,
    >)
        ensures
            delivery_plan_spec(r, "Create"@, creator@, self.wire_form(), followers@),
    ;

    /// Announce an edit.
    fn send_update(&self, creator: &ActorIdentity, followers: &Vec<ApubUrl>) -> (r: Result<
        DeliveryPlan,
        FederationError,
    >)
        ensures
            delivery_plan_spec(r, "Update"@, creator@, self.wire_form(), followers@),
    ;

    /// Announce deletion by the creator.
    fn send_delete(&self, creator: &ActorIdentity, followers: &Vec<ApubUrl>) -> (r: Result<
        DeliveryPlan,
        FederationError,
    >)
        ensures
            delivery_plan_spec(r, "Delete"@, creator@, self.wire_form(), followers@),
    ;

    /// Take a deletion back.
    fn send_undo_delete(&self, creator: &ActorIdentity, followers: &Vec<ApubUrl>) -> (r: Result<
        DeliveryPlan,
        FederationError,
    >)
        ensures
            delivery_plan_spec(r, "Undo"@, creator@, self.wire_form(), followers@),
    ;

    /// Announce removal by a moderator.
    fn send_remove(&self, mod_: &ActorIdentity, followers: &Vec<ApubUrl>) -> (r: Result<
        DeliveryPlan,
        FederationError,
    >)
        ensures
            delivery_plan_spec(r, "Remove"@, mod_@, self.wire_form(), followers@),
    ;

    /// Take a removal back.
    fn send_undo_remove(&self, mod_: &ActorIdentity, followers: &Vec<ApubUrl>) -> (r: Result<
        DeliveryPlan,
        FederationError,
    >)
        ensures
            delivery_plan_spec(r, "Undo"@, mod_@, self.wire_form(), followers@),
    ;
}

/// Reaction dispatch: same shape as lifecycle dispatch, narrower payload.
pub trait ApubLikeableType: ToApub {
    fn send_like(&self, creator: &ActorIdentity, followers: &Vec<ApubUrl>) -> (r: Result<
        DeliveryPlan,
        FederationError,
    >)
        ensures
            delivery_plan_spec(r, "Like"@, creator@, self.wire_form(), followers@),
    ;

    fn send_dislike(&self, creator: &ActorIdentity, followers: &Vec<ApubUrl>) -> (r: Result<
        DeliveryPlan,
        FederationError,
    >)
        ensures
            delivery_plan_spec(r, "Dislike"@, creator@, self.wire_form(), followers@),
    ;

    fn send_undo_like(&self, creator: &ActorIdentity, followers: &Vec<ApubUrl>) -> (r: Result<
        DeliveryPlan,
        FederationError,
    >)
        ensures
            delivery_plan_spec(r, "Undo"@, creator@, self.wire_form(), followers@),
    ;
}

impl<T: ToApub> ApubObjectType for T {
    fn send_create(&self, creator: &ActorIdentity, followers: &Vec<ApubUrl>) -> (r: Result<
        DeliveryPlan,
        FederationError,
    >) {
        plan_delivery("Create", creator, self.to_apub(), followers)
    }

    fn send_update(&self, creator: &ActorIdentity, followers: &Vec<ApubUrl>) -> (r: Result<
        DeliveryPlan,
        FederationError,
    >) {
        plan_delivery("Update", creator, self.to_apub(), followers)
    }

    fn send_delete(&self, creator: &ActorIdentity, followers: &Vec<ApubUrl>) -> (r: Result<
        DeliveryPlan,
        FederationError,
    >) {
        plan_delivery("Delete", creator, self.to_apub(), followers)
    }

    fn send_undo_delete(&self, creator: &ActorIdentity, followers: &Vec<ApubUrl>) -> (r: Result<
        DeliveryPlan,
        FederationError,
    >) {
        plan_delivery("Undo", creator, self.to_apub(), followers)
    }

    fn send_remove(&self, mod_: &ActorIdentity, followers: &Vec<ApubUrl>) -> (r: Result<
        DeliveryPlan,
        FederationError,
    >) {
        plan_delivery("Remove", mod_, self.to_apub(), followers)
    }

    fn send_undo_remove(&self, mod_: &ActorIdentity, followers: &Vec<ApubUrl>) -> (r: Result<
        DeliveryPlan,
        FederationError,
    >) {
        plan_delivery("Undo", mod_, self.to_apub(), followers)
    }
}

impl<T: ToApub> ApubLikeableType for T {
    fn send_like(&self, creator: &ActorIdentity, followers: &Vec<ApubUrl>) -> (r: Result<
        DeliveryPlan,
        FederationError,
    >) {
        plan_delivery("Like", creator, self.to_apub(), followers)
    }

    fn send_dislike(&self, creator: &ActorIdentity, followers: &Vec<ApubUrl>) -> (r: Result<
        DeliveryPlan,
        FederationError,
    >) {
        plan_delivery("Dislike", creator, self.to_apub(), followers)
    }

    fn send_undo_like(&self, creator: &ActorIdentity, followers: &Vec<ApubUrl>) -> (r: Result<
        DeliveryPlan,
        FederationError,
    >) {
        plan_delivery("Undo", creator, self.to_apub(), followers)
    }
}

/// Mathematical model of an actor-level activity plan.
pub ghost struct ActorPlanView {
    pub kind: Seq<char>,
    pub actor: Seq<char>,
    pub object_id: Seq<char>,
    pub target: Seq<char>,
}

/// What one actor-level verb (follow, accept, unfollow) decides: the
/// activity's tag, the acting actor, the actor it speaks of, and the one
/// inbox to deliver to.
pub struct ActorPlan {
    pub kind: String,
    pub actor: String,
    pub object_id: String,
    pub target: String,
}

impl View for ActorPlan {
    type V = ActorPlanView;

    open spec fn view(&self) -> ActorPlanView {
        ActorPlanView {
            kind: self.kind@,
            actor: self.actor@,
            object_id: self.object_id@,
            target: self.target@,
        }
    }
}

/// The contract of an actor-level verb aimed at one remote actor: a no-op
/// for the variant the verb is not meaningful to, otherwise one delivery to
/// the remote actor's shared inbox.
pub open spec fn actor_plan_spec(
    r: Result<Option<ActorPlan>, FederationError>,
    applies: bool,
    kind: Seq<char>,
    actor: ActorView,
    object: UrlView,
) -> bool {
    if !applies {
        r == Ok::<Option<ActorPlan>, FederationError>(None)
    } else {
        match r {
            Ok(o) => o matches Some(p) && object.host is Some && p@ == (ActorPlanView {
                kind,
                actor: actor.actor_id,
                object_id: object.raw,
                target: shared_inbox_seq(object),
            }),
            Err(e) => object.host is None && e == FederationError::MalformedActorId,
        }
    }
}

fn plan_actor_verb(
    kind: &str,
    actor: &ActorIdentity,
    object: &ApubUrl,
) -> (r: Result<Option<ActorPlan>, FederationError>)
    ensures
        actor_plan_spec(r, true, kind@, actor@, object@),
{
    let target = match shared_inbox_from_parts(object) {
        Ok(t) => t,
        Err(e) => {
            return Err(e);
        },
    };
    Ok(
        Some(
            ActorPlan {
                kind: kind.to_owned(),
                actor: actor.actor_id.clone(),
                object_id: object.raw.clone(),
                target,
            },
        ),
    )
}

impl ActorIdentity {
    /// Ask to follow another actor. Only user actors initiate follows in
    /// this protocol generation; for a community the verb is a no-op.
    pub fn send_follow(&self, follow_actor_id: &ApubUrl) -> (r: Result<
        Option<ActorPlan>,
        FederationError,
    >)
        ensures
            actor_plan_spec(
                r,
                self@.variant == ActorVariant::User,
                "Follow"@,
                self@,
                follow_actor_id@,
            ),
    {
        match self.variant {
            ActorVariant::Community => Ok(None),
            ActorVariant::User => plan_actor_verb("Follow", self, follow_actor_id),
        }
    }

    /// Take a follow back; a no-op for a community, as the follow itself is.
    pub fn send_unfollow(&self, follow_actor_id: &ApubUrl) -> (r: Result<
        Option<ActorPlan>,
        FederationError,
    >)
        ensures
            actor_plan_spec(
                r,
                self@.variant == ActorVariant::User,
                "Undo"@,
                self@,
                follow_actor_id@,
            ),
    {
        match self.variant {
            ActorVariant::Community => Ok(None),
            ActorVariant::User => plan_actor_verb("Undo", self, follow_actor_id),
        }
    }

    /// Accept a follow. Only a community is followed in this protocol
    /// generation; for a user actor the verb is a no-op.
    pub fn send_accept_follow(&self, follower_id: &ApubUrl) -> (r: Result<
        Option<ActorPlan>,
        FederationError,
    >)
        ensures
            actor_plan_spec(
                r,
                self@.variant == ActorVariant::Community,
                "Accept"@,
                self@,
                follower_id@,
            ),
    {
        match self.variant {
            ActorVariant::User => Ok(None),
            ActorVariant::Community => plan_actor_verb("Accept", self, follower_id),
        }
    }
}

/// Mathematical model of an actor lifecycle notice.
pub ghost struct ActorNoticeView {
    pub kind: Seq<char>,
    pub actor: Seq<char>,
    pub object_id: Seq<char>,
}

/// An actor lifecycle notice: an actor was deleted, removed, or restored,
/// announced to that actor's followers.
pub struct ActorNoticePlan {
    pub kind: String,
    pub actor: String,
    pub object_id: String,
    pub targets: Vec<String>,
}

impl View for ActorNoticePlan {
    type V = ActorNoticeView;

    open spec fn view(&self) -> ActorNoticeView {
        ActorNoticeView { kind: self.kind@, actor: self.actor@, object_id: self.object_id@ }
    }
}

/// The contract of an actor lifecycle verb: the notice carries the verb's
/// tag, the acting user and the affected actor, and goes to the affected
/// actor's followers, one shared inbox per host.
pub open spec fn actor_notice_spec(
    r: Result<ActorNoticePlan, FederationError>,
    kind: Seq<char>,
    acting: ActorView,
    subject: ActorView,
    followers: Seq<ApubUrl>,
) -> bool {
    match r {
        Ok(p) => {
            &&& all_hosted(followers)
            &&& p@ == (ActorNoticeView {
                kind,
                actor: acting.actor_id,
                object_id: subject.actor_id,
            })
            &&& strs_view(p.targets@) == planned_targets(followers)
        },
        Err(e) => !all_hosted(followers) && e == FederationError::MalformedActorId,
    }
}

fn plan_actor_notice(
    kind: &str,
    acting: &ActorIdentity,
    subject: &ActorIdentity,
    followers: &Vec<ApubUrl>,
) -> (r: Result<ActorNoticePlan, FederationError>)
    ensures
        actor_notice_spec(r, kind@, acting@, subject@, followers@),
{
    let targets = match collect_inbox_targets(followers) {
        Ok(t) => t,
        Err(e) => {
            return Err(e);
        },
    };
    Ok(
        ActorNoticePlan {
            kind: kind.to_owned(),
            actor: acting.actor_id.clone(),
            object_id: subject.actor_id.clone(),
            targets,
        },
    )
}

impl ActorIdentity {
    /// Announce this actor's deletion by its creator to its followers.
    pub fn send_delete(&self, creator: &ActorIdentity, followers: &Vec<ApubUrl>) -> (r: Result<
        ActorNoticePlan,
        FederationError,
    >)
        ensures
            actor_notice_spec(r, "Delete"@, creator@, self@, followers@),
    {
        plan_actor_notice("Delete", creator, self, followers)
    }

    /// Take this actor's deletion back.
    pub fn send_undo_delete(&self, creator: &ActorIdentity, followers: &Vec<ApubUrl>) -> (r:
        Result<ActorNoticePlan, FederationError>)
        ensures
            actor_notice_spec(r, "Undo"@, creator@, self@, followers@),
    {
        plan_actor_notice("Undo", creator, self, followers)
    }

    /// Announce this actor's removal by a moderator to its followers.
    pub fn send_remove(&self, mod_: &ActorIdentity, followers: &Vec<ApubUrl>) -> (r: Result<
        ActorNoticePlan,
        FederationError,
    >)
        ensures
            actor_notice_spec(r, "Remove"@, mod_@, self@, followers@),
    {
        plan_actor_notice("Remove", mod_, self, followers)
    }

    /// Take this actor's removal back.
    pub fn send_undo_remove(&self, mod_: &ActorIdentity, followers: &Vec<ApubUrl>) -> (r: Result<
        ActorNoticePlan,
        FederationError,
    >)
        ensures
            actor_notice_spec(r, "Undo"@, mod_@, self@, followers@),
    {
        plan_actor_notice("Undo", mod_, self, followers)
    }
}

/// The targets whose delivery failed, in target order.
pub open spec fn failed_targets(ts: Seq<Seq<char>>, delivered: Seq<bool>) -> Seq<Seq<char>>
    recommends
        ts.len() == delivered.len(),
    decreases ts.len(),
{
    if ts.len() == 0 {
        Seq::empty()
    } else {
        let init = failed_targets(ts.drop_last(), delivered.drop_last());
        if !delivered.last() {
            init.push(ts.last())
        } else {
            init
        }
    }
}

/// Close one dispatch call after every delivery was attempted: append the
/// activity record (this server is the origin, so `local` is true) whether
/// or not recipients failed, and report the failed recipients — exactly
/// those whose delivery did not succeed, never silently dropped.
pub fn finish_dispatch(
    log: &mut ActivityLog,
    sender_user_id: i32,
    payload: String,
    targets: &Vec<String>,
    delivered: &Vec<bool>,
) -> (r: Result<(), FederationError>)
    requires
        targets@.len() == delivered@.len(),
    ensures
        final(log)@ == old(log)@.push(
            ActivityRecordView { user_id: sender_user_id, data: payload@, local: true },
        ),
        r is Ok <==> failed_targets(strs_view(targets@), delivered@).len() == 0,
        r matches Err(e) ==> (e matches FederationError::PartialDeliveryFailure(f) && strs_view(f@)
            == failed_targets(strs_view(targets@), delivered@)),
{
    let ghost all = strs_view(targets@);
    let n = targets.len();
    let mut failed: Vec<String> = Vec::new();
    let mut i: usize = 0;
    assert(strs_view(failed@) =~= failed_targets(all.take(0), delivered@.take(0)));
    while i < n
        invariant
            i <= n,
            n == targets@.len(),
            n == delivered@.len(),
            all == strs_view(targets@),
            strs_view(failed@) == failed_targets(all.take(i as int), delivered@.take(i as int)),
        decreases n - i,
    {
        let ghost failed_before = strs_view(failed@);
        if !delivered[i] {
            failed.push(targets[i].clone());
            assert(strs_view(failed@) =~= failed_before.push(targets@[i as int]@));
        }
        proof {
            assert(all.take(i + 1).drop_last() =~= all.take(i as int));
            assert(delivered@.take(i + 1).drop_last() =~= delivered@.take(i as int));
        }
        i += 1;
    }
    proof {
        assert(all.take(n as int) =~= all);
        assert(delivered@.take(n as int) =~= delivered@);
    }
    insert_activity(log, sender_user_id, payload, true);
    if failed.len() == 0 {
        Ok(())
    } else {
        Err(FederationError::PartialDeliveryFailure(failed))
    }
}

/// Backoff configuration for bounded retry: how many attempts in all, and
/// the delay grows linearly with the attempts already made.
pub struct RetryPolicy {
    pub max_attempts: u32,
    pub base_delay_ms: u64,
}

/// The delay before the next attempt, saturating at the largest delay the
/// clock can hold.
pub open spec fn retry_delay_spec(base: u64, attempts_made: u32) -> u64 {
    if base * (attempts_made + 1) <= u64::MAX {
        (base * (attempts_made + 1)) as u64
    } else {
        u64::MAX
    }
}

impl RetryPolicy {
    /// Decide whether to retry after a failed attempt: only classified
    /// transient failures are retried, and only while attempts remain. The
    /// result is the delay to wait before the next attempt.
    pub fn next_retry(&self, attempts_made: u32, transient: bool) -> (r: Option<u64>)
        ensures
            r is Some <==> (transient && attempts_made + 1 < self.max_attempts),
            r matches Some(d) ==> d == retry_delay_spec(self.base_delay_ms, attempts_made),
    {
        if !transient {
            return None;
        }
        if attempts_made >= u32::MAX - 1 || attempts_made + 1 >= self.max_attempts {
            return None;
        }
        let factor: u128 = (attempts_made as u128) + 1;
        proof {
            assert((self.base_delay_ms as u128) * factor < 0x1_0000_0000_0000_0000_0000_0000u128)
                by (nonlinear_arith)
                requires
                    factor <= 0x1_0000_0000u128,
                    self.base_delay_ms <= u64::MAX,
            ;
        }
        let product: u128 = (self.base_delay_ms as u128) * factor;
        if product > u64::MAX as u128 {
            Some(u64::MAX)
        } else {
            Some(product as u64)
        }
    }
}

} // verus!
