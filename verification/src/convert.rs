//! Conversion between internal content entities and their wire-format
//! federation objects, and the logical-deletion (tombstone) representation.

use crate::config::{ConfigView, FederationConfig};
use crate::error::FederationError;
use crate::ident::{ApubUrl, UrlView};
use crate::trust::{actor_domain_verdict, check_actor_domain, opt_url_view};
use vstd::prelude::*;

verus! {

/// The content entity kinds this core federates.
#[derive(Clone, Copy, PartialEq, Eq, Structural, Debug)]
pub enum EntityKind {
    Post,
    Comment,
    PrivateMessage,
}

/// The wire vocabulary type tag of an entity kind.
pub open spec fn kind_tag(k: EntityKind) -> Seq<char> {
    match k {
        EntityKind::Post => "Page"@,
        EntityKind::Comment => "Note"@,
        EntityKind::PrivateMessage => "ChatMessage"@,
    }
}

/// The wire vocabulary type tag, as a string.
pub fn kind_type_name(k: EntityKind) -> (r: &'static str)
    ensures
        r@ == kind_tag(k),
{
    match k {
        EntityKind::Post => "Page",
        EntityKind::Comment => "Note",
        EntityKind::PrivateMessage => "ChatMessage",
    }
}

/// The entity kind a wire type tag maps back to.
pub open spec fn parse_kind_spec(s: Seq<char>) -> Option<EntityKind> {
    if s == "Page"@ {
        Some(EntityKind::Post)
    } else if s == "Note"@ {
        Some(EntityKind::Comment)
    } else if s == "ChatMessage"@ {
        Some(EntityKind::PrivateMessage)
    } else {
        None
    }
}

/// Map a wire type tag back to an entity kind.
pub fn parse_kind(s: &String) -> (r: Option<EntityKind>)
    ensures
        r == parse_kind_spec(s@),
{
    let page: String = "Page".to_owned();
    let note: String = "Note".to_owned();
    let chat: String = "ChatMessage".to_owned();
    if s.eq(&page) {
        Some(EntityKind::Post)
    } else if s.eq(&note) {
        Some(EntityKind::Comment)
    } else if s.eq(&chat) {
        Some(EntityKind::PrivateMessage)
    } else {
        None
    }
}

/// The wire tags are distinct, so a tag maps back to the kind it was made
/// from.
pub proof fn lemma_kind_tag_round_trip(k: EntityKind)
    ensures
        parse_kind_spec(kind_tag(k)) == Some(k),
{
    reveal_strlit("Page");
    reveal_strlit("Note");
    reveal_strlit("ChatMessage");
    assert("Page"@ != "Note"@) by {
        assert("Page"@[0] == 'P' && "Note"@[0] == 'N');
    }
    assert("Page"@.len() == 4 && "ChatMessage"@.len() == 11);
    assert("Note"@.len() == 4);
}

/// Mathematical model of a wire-format federation object.
pub ghost struct ObjectView {
    pub id: UrlView,
    pub attributed_to: Seq<char>,
    pub kind: Seq<char>,
    pub content: Seq<char>,
    pub updated: Option<i64>,
}

/// The wire representation of a content entity: identifier, owning actor,
/// vocabulary type tag, content, and the `updated` timestamp (which doubles
/// as the deletion time once the entity is deleted).
pub struct FederatedObject {
    pub id: ApubUrl,
    pub attributed_to: String,
    pub kind: String,
    pub content: String,
    pub updated: Option<i64>,
}

impl View for FederatedObject {
    type V = ObjectView;

    open spec fn view(&self) -> ObjectView {
        ObjectView {
            id: self.id@,
            attributed_to: self.attributed_to@,
            kind: self.kind@,
            content: self.content@,
            updated: self.updated,
        }
    }
}

/// Mathematical model of an internal content entity.
pub ghost struct EntityView {
    pub ap_id: UrlView,
    pub creator_id: Seq<char>,
    pub kind: EntityKind,
    pub content: Seq<char>,
    pub deleted: bool,
    pub updated: Option<i64>,
    pub local_id: i32,
}

/// An internal content entity (post, comment or private message) with the
/// fields the federation core reads.
pub struct Entity {
    pub ap_id: ApubUrl,
    pub creator_id: String,
    pub kind: EntityKind,
    pub content: String,
    pub deleted: bool,
    /// Seconds since the epoch; doubles as the deletion time when `deleted`.
    pub updated: Option<i64>,
    /// Local database reference; not a federation-relevant field.
    pub local_id: i32,
}

impl View for Entity {
    type V = EntityView;

    open spec fn view(&self) -> EntityView {
        EntityView {
            ap_id: self.ap_id@,
            creator_id: self.creator_id@,
            kind: self.kind,
            content: self.content@,
            deleted: self.deleted,
            updated: self.updated,
            local_id: self.local_id,
        }
    }
}

/// Mathematical model of a tombstone.
pub ghost struct TombstoneView {
    pub id: Seq<char>,
    pub former_type: Seq<char>,
    pub deleted_time: i64,
}

/// The wire representation standing in for a deleted object: its identifier,
/// the name of its former concrete type, and the deletion time.
pub struct Tombstone {
    pub id: String,
    pub former_type: String,
    /// Seconds since the epoch.
    pub deleted_time: i64,
}

impl View for Tombstone {
    type V = TombstoneView;

    open spec fn view(&self) -> TombstoneView {
        TombstoneView { id: self.id@, former_type: self.former_type@, deleted_time: self.deleted_time }
    }
}

/// Build the tombstone of a deleted object. The `updated` timestamp is the
/// deletion time. Construction succeeds exactly when the entity is deleted
/// and carries an `updated` timestamp; otherwise it is an error, never a
/// degraded tombstone.
pub fn create_tombstone(
    deleted: bool,
    object_id: &String,
    updated: Option<i64>,
    former_type: &str,
) -> (r: Result<Tombstone, FederationError>)
    ensures
        deleted && updated is Some ==> (r matches Ok(t) && t@ == (TombstoneView {
            id: object_id@,
            former_type: former_type@,
            deleted_time: updated->Some_0,
        })),
        !deleted ==> r == Err::<Tombstone, _>(FederationError::NotDeleted),
        deleted && updated is None ==> r == Err::<Tombstone, _>(
            FederationError::MissingDeletionTimestamp,
        ),
{
    if deleted {
        if let Some(u) = updated {
            Ok(
                Tombstone {
                    id: object_id.clone(),
                    former_type: former_type.to_owned(),
                    deleted_time: u,
                },
            )
        } else {
            Err(FederationError::MissingDeletionTimestamp)
        }
    } else {
        Err(FederationError::NotDeleted)
    }
}

/// The wire form of an entity.
pub open spec fn entity_wire_form(e: EntityView) -> ObjectView {
    ObjectView {
        id: e.ap_id,
        attributed_to: e.creator_id,
        kind: kind_tag(e.kind),
        content: e.content,
        updated: e.updated,
    }
}

/// The tombstone form of an entity, or the error its state forces.
pub open spec fn entity_tombstone_form(e: EntityView) -> Result<TombstoneView, FederationError> {
    if !e.deleted {
        Err(FederationError::NotDeleted)
    } else {
        match e.updated {
            None => Err(FederationError::MissingDeletionTimestamp),
            Some(u) => Ok(
                TombstoneView { id: e.ap_id.raw, former_type: kind_tag(e.kind), deleted_time: u },
            ),
        }
    }
}

/// Outbound conversion: an entity's wire form and its tombstone form.
pub trait ToApub {
    /// The wire form this value converts to.
    spec fn wire_form(&self) -> ObjectView;

    /// The tombstone form this value converts to, or the error its state
    /// forces.
    spec fn tombstone_form(&self) -> Result<TombstoneView, FederationError>;

    /// Produce the wire-format federation object.
    fn to_apub(&self) -> (r: FederatedObject)
        ensures
            r@ == self.wire_form(),
    ;

    /// Produce the tombstone representation; fails unless the value is
    /// deleted and carries a deletion timestamp.
    fn to_tombstone(&self) -> (r: Result<Tombstone, FederationError>)
        ensures
            match r {
                Ok(t) => self.tombstone_form() == Ok::<_, FederationError>(t@),
                Err(e) => self.tombstone_form() == Err::<TombstoneView, _>(e),
            },
    ;
}

/// The entity a wire object converts back to, after domain reconciliation
/// of its identifier, or the error that conversion signals. The entity is
/// not yet persisted: it carries no deletion mark and no local reference.
pub open spec fn entity_from_wire(
    o: ObjectView,
    c: ConfigView,
    expected_domain: Option<UrlView>,
) -> Result<EntityView, FederationError> {
    match actor_domain_verdict(c, o.id, expected_domain) {
        Err(e) => Err(e),
        Ok(_) => match parse_kind_spec(o.kind) {
            None => Err(FederationError::Deserialize),
            Some(k) => Ok(
                EntityView {
                    ap_id: o.id,
                    creator_id: o.attributed_to,
                    kind: k,
                    content: o.content,
                    deleted: false,
                    updated: o.updated,
                    local_id: 0,
                },
            ),
        },
    }
}

/// Inbound conversion: from the wire form back to the internal entity,
/// with the domain trust check on the object's own identifier.
pub trait FromApub: Sized + View {
    /// The value a wire object converts back to, or the error conversion
    /// signals.
    spec fn from_wire(o: ObjectView, c: ConfigView, expected_domain: Option<UrlView>) -> Result<
        Self::V,
        FederationError,
    >;

    /// Convert a wire object to the internal form, reconciling the object's
    /// identifier against the expected delivery domain (or, without one,
    /// against the generic trust check).
    fn from_apub(
        apub: &FederatedObject,
        config: &FederationConfig,
        expected_domain: Option<&ApubUrl>,
    ) -> (r: Result<Self, FederationError>)
        ensures
            match r {
                Ok(e) => Self::from_wire(apub@, config@, opt_url_view(expected_domain)) == Ok::<
                    _,
                    FederationError,
                >(e@),
                Err(err) => Self::from_wire(apub@, config@, opt_url_view(expected_domain)) == Err::<
                    Self::V,
                    _,
                >(err),
            },
    ;
}

impl ToApub for Entity {
    open spec fn wire_form(&self) -> ObjectView {
        entity_wire_form(self@)
    }

    open spec fn tombstone_form(&self) -> Result<TombstoneView, FederationError> {
        entity_tombstone_form(self@)
    }

    fn to_apub(&self) -> (r: FederatedObject) {
        FederatedObject {
            id: self.ap_id.duplicate(),
            attributed_to: self.creator_id.clone(),
            kind: kind_type_name(self.kind).to_owned(),
            content: self.content.clone(),
            updated: self.updated,
        }
    }

    fn to_tombstone(&self) -> (r: Result<Tombstone, FederationError>) {
        create_tombstone(self.deleted, &self.ap_id.raw, self.updated, kind_type_name(self.kind))
    }
}

impl FromApub for Entity {
    open spec fn from_wire(o: ObjectView, c: ConfigView, expected_domain: Option<UrlView>) -> Result<
        EntityView,
        FederationError,
    > {
        entity_from_wire(o, c, expected_domain)
    }

    fn from_apub(
        apub: &FederatedObject,
        config: &FederationConfig,
        expected_domain: Option<&ApubUrl>,
    ) -> (r: Result<Entity, FederationError>) {
        match check_actor_domain(&apub.id, expected_domain, config) {
            Err(e) => Err(e),
            Ok(_) => match parse_kind(&apub.kind) {
                None => Err(FederationError::Deserialize),
                Some(k) => Ok(
                    Entity {
                        ap_id: apub.id.duplicate(),
                        creator_id: apub.attributed_to.clone(),
                        kind: k,
                        content: apub.content.clone(),
                        deleted: false,
                        updated: apub.updated,
                        local_id: 0,
                    },
                ),
            },
        }
    }
}

/// Law: converting an entity to its wire form and back, under a
/// configuration that trusts the entity's identifier, yields an entity equal
/// to the original on every federation-relevant field (identifier, owning
/// actor, kind, content, updated timestamp).
pub proof fn lemma_apub_round_trip(e: EntityView, c: ConfigView)
    requires
        crate::trust::trust_verdict(c, e.ap_id) == Ok::<(), FederationError>(()),
    ensures
        entity_from_wire(entity_wire_form(e), c, None) matches Ok(f) && f.ap_id == e.ap_id
            && f.creator_id == e.creator_id && f.kind == e.kind && f.content == e.content
            && f.updated == e.updated,
{
    lemma_kind_tag_round_trip(e.kind);
}

} // verus!
