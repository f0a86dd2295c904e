//! Conferences: creating, editing and publishing them, attaching their
//! venues, and bringing their price tiers up to date.
use vstd::prelude::*;
use vstd::string::*;
use crate::clock::Timestamp;
use crate::error::{AppError, DomainError};
use crate::models::conference::ConferenceEntity;
use crate::models::price_tier::{PriceTier, PriceTierEntity};
use crate::services::venue::VenueEntity;
use std::collections::HashMap;
use crate::update::{given_or, given_or_keep, or_stored, unwrap_or_stored};

verus! {

/// A conference to create.
#[derive(Debug, Clone)]
pub struct CreateConferenceRequest {
    pub code: String,
    pub name: String,
    pub poster_url: Option<String>,
    pub description: Option<String>,
    pub start_date: Option<Timestamp>,
    pub end_date: Option<Timestamp>,
}

/// Changes to a conference; fields left out are kept.
#[derive(Debug, Clone)]
pub struct UpdateConferenceRequest {
    pub name: Option<String>,
    pub poster_url: Option<String>,
    pub description: Option<String>,
    pub start_date: Option<Timestamp>,
    pub end_date: Option<Timestamp>,
    pub venue_id: Option<u64>,
    pub group_discount_id: Option<u64>,
}

/// The conference to store for a creation request: without venue or group
/// discount, and not published.
pub fn new_conference(dto: CreateConferenceRequest, now: Timestamp) -> (r: ConferenceEntity)
    ensures
        r == (ConferenceEntity {
            id: 0,
            code: dto.code,
            name: dto.name,
            poster_url: dto.poster_url,
            description: dto.description,
            start_date: dto.start_date,
            end_date: dto.end_date,
            venue_id: None,
            group_discount_id: None,
            published: 0,
            created_at: now,
            updated_at: now,
        }),
{
    ConferenceEntity {
        id: 0,
        code: dto.code,
        name: dto.name,
        poster_url: dto.poster_url,
        description: dto.description,
        start_date: dto.start_date,
        end_date: dto.end_date,
        venue_id: None,
        group_discount_id: None,
        published: 0,
        created_at: now,
        updated_at: now,
    }
}

/// The stored conference with the requested changes; the code, the
/// publication flag and the creation time are kept.
pub fn updated_conference(stored: ConferenceEntity, dto: UpdateConferenceRequest, now: Timestamp) -> (r:
    ConferenceEntity)
    ensures
        r == (ConferenceEntity {
            id: stored.id,
            code: stored.code,
            name: given_or_keep(dto.name, stored.name),
            poster_url: given_or(dto.poster_url, stored.poster_url),
            description: given_or(dto.description, stored.description),
            start_date: given_or(dto.start_date, stored.start_date),
            end_date: given_or(dto.end_date, stored.end_date),
            venue_id: given_or(dto.venue_id, stored.venue_id),
            group_discount_id: given_or(dto.group_discount_id, stored.group_discount_id),
            published: stored.published,
            created_at: stored.created_at,
            updated_at: now,
        }),
{
    ConferenceEntity {
        id: stored.id,
        code: stored.code,
        name: unwrap_or_stored(dto.name, stored.name),
        poster_url: or_stored(dto.poster_url, stored.poster_url),
        description: or_stored(dto.description, stored.description),
        start_date: or_stored(dto.start_date, stored.start_date),
        end_date: or_stored(dto.end_date, stored.end_date),
        venue_id: or_stored(dto.venue_id, stored.venue_id),
        group_discount_id: or_stored(dto.group_discount_id, stored.group_discount_id),
        published: stored.published,
        created_at: stored.created_at,
        updated_at: now,
    }
}

/// The stored conference published (flag 1) or withdrawn (flag 0).
pub fn published_conference(stored: ConferenceEntity, published: bool, now: Timestamp) -> (r: ConferenceEntity)
    ensures
        r == (ConferenceEntity { published: if published { 1i8 } else { 0i8 }, updated_at: now, ..stored }),
        r.published != 0 <==> published,
{
    let flag: i8 = if published {
        1
    } else {
        0
    };
    ConferenceEntity { published: flag, updated_at: now, ..stored }
}

/// The venue of a conference from its lookup: a venue that is not found is
/// no venue; any other failure is passed on.
pub fn optional_venue<V>(found: Result<V, DomainError>) -> (r: Result<Option<V>, AppError>)
    ensures
        match found {
            Ok(v) => r == Ok::<Option<V>, AppError>(Some(v)),
            Err(DomainError::NotFound) => r == Ok::<Option<V>, AppError>(None),
            Err(e) => r == Err::<Option<V>, AppError>(AppError::Domain(e)),
        },
{
    match found {
        Ok(v) => Ok(Some(v)),
        Err(DomainError::NotFound) => Ok(None),
        Err(e) => Err(AppError::Domain(e)),
    }
}

/// The start date price tiers are computed from; without one the
/// conference is refused with "Can't generate the price tiers without a
/// start date".
pub fn tier_start_date(conference: &ConferenceEntity) -> (r: Result<Timestamp, AppError>)
    ensures
        match conference.start_date {
            Some(d) => r == Ok::<Timestamp, AppError>(d),
            None => r matches Err(AppError::Domain(DomainError::InvalidTransition(m))) && m@
                == "Can't generate the price tiers without a start date"@,
        },
{
    match conference.start_date {
        Some(d) => Ok(d),
        None => Err(
            AppError::Domain(
                DomainError::InvalidTransition(
                    String::from_str("Can't generate the price tiers without a start date"),
                ),
            ),
        ),
    }
}

/// Registration opens only for a conference with a start date; otherwise it
/// is refused with "Registration is not ready for conferences without a
/// start date".
pub fn registration_form_ready(conference: &ConferenceEntity) -> (r: Result<(), AppError>)
    ensures
        conference.start_date is Some ==> r is Ok,
        conference.start_date is None ==> (r matches Err(AppError::Domain(DomainError::InvalidTransition(m)))
            && m@ == "Registration is not ready for conferences without a start date"@),
{
    match conference.start_date {
        Some(_) => Ok(()),
        None => Err(
            AppError::Domain(
                DomainError::InvalidTransition(
                    String::from_str("Registration is not ready for conferences without a start date"),
                ),
            ),
        ),
    }
}

/// A stored tier given the price and deadline of a newly computed one.
pub open spec fn retiered(stored: PriceTierEntity, generated: PriceTier, now: Timestamp) -> PriceTierEntity {
    PriceTierEntity { price: generated.price, deadline: generated.deadline, updated_at: now, ..stored }
}

/// The stored tiers, in order, each given the price and deadline of the
/// computed tier at the same position; tiers beyond the shorter list are
/// dropped.
pub fn regenerated_tiers(stored: Vec<PriceTierEntity>, generated: Vec<PriceTier>, now: Timestamp) -> (r: Vec<
    PriceTierEntity,
>)
    ensures
        r@.len() == if stored@.len() <= generated@.len() {
            stored@.len()
        } else {
            generated@.len()
        },
        forall|i: int| 0 <= i < r@.len() ==> #[trigger] r@[i] == retiered(stored@[i], generated@[i], now),
{
    let n = if stored.len() <= generated.len() {
        stored.len()
    } else {
        generated.len()
    };
    let mut stored = stored;
    let ghost stored0 = stored@;
    let mut out: Vec<PriceTierEntity> = Vec::new();
    stored.truncate(n);
    let mut rest: Vec<PriceTierEntity> = Vec::new();
    // take the stored tiers out in reverse, then rebuild in order
    while stored.len() > 0
        invariant
            stored@.len() + rest@.len() == n,
            n <= stored0.len(),
            forall|i: int| 0 <= i < stored@.len() ==> #[trigger] stored@[i] == stored0[i],
            forall|j: int|
                0 <= j < rest@.len() ==> #[trigger] rest@[j] == stored0[n - 1 - j],
        decreases stored@.len(),
    {
        let e = stored.pop().unwrap();
        rest.push(e);
    }
    let mut k: usize = 0;
    while rest.len() > 0
        invariant
            rest@.len() + out@.len() == n,
            k == out@.len(),
            n <= stored0.len(),
            n <= generated@.len(),
            forall|j: int|
                0 <= j < rest@.len() ==> #[trigger] rest@[j] == stored0[n - 1 - j],
            forall|i: int| 0 <= i < out@.len() ==> #[trigger] out@[i] == retiered(stored0[i], generated@[i], now),
        decreases rest@.len(),
    {
        let e = rest.pop().unwrap();
        let g = &generated[k];
        out.push(PriceTierEntity { price: g.price, deadline: g.deadline, updated_at: now, ..e });
        k = k + 1;
    }
    out
}

/// An earlier conference of the list (before position `i`) is at venue `k`.
pub open spec fn venue_taken_before(cs: Seq<ConferenceEntity>, i: int, k: u64) -> bool {
    exists|j: int| 0 <= j < i && #[trigger] cs[j].venue_id == Some(k)
}

/// The last venue of the list with id `k`, if any.
pub open spec fn last_venue_with_id(vs: Seq<VenueEntity>, k: u64) -> Option<VenueEntity>
    decreases vs.len(),
{
    if vs.len() == 0 {
        None
    } else if vs.last().id == k {
        Some(vs.last())
    } else {
        last_venue_with_id(vs.drop_last(), k)
    }
}

/// The venue shown with the conference at position `i`: the venues are
/// looked up by id (where two share an id, the later one counts), and each
/// venue goes to the first conference of the list that is at it; a later
/// conference at the same venue is shown without one.
pub open spec fn venue_shown(cs: Seq<ConferenceEntity>, vs: Seq<VenueEntity>, i: int) -> Option<VenueEntity> {
    match cs[i].venue_id {
        None => None,
        Some(k) => if venue_taken_before(cs, i, k) {
            None
        } else {
            last_venue_with_id(vs, k)
        },
    }
}

/// The last venue with an id among the first `k + 1` venues is venue `k`
/// where it has that id, and otherwise the last one among the first `k`.
proof fn lemma_last_venue_take(vs: Seq<VenueEntity>, k: int, id: u64)
    requires
        0 <= k < vs.len(),
    ensures
        last_venue_with_id(vs.take(k + 1), id) == if vs[k].id == id {
            Some(vs[k])
        } else {
            last_venue_with_id(vs.take(k), id)
        },
{
    assert(vs.take(k + 1).drop_last() =~= vs.take(k));
    assert(vs.take(k + 1).last() == vs[k]);
}

/// The conferences of a page, each with the venue it is shown with (see
/// `venue_shown`), in the order of the page.  The venues are looked up by id
/// in a map, from which each is taken out when a conference gets it.
pub fn attach_venues(conferences: Vec<ConferenceEntity>, venues: Vec<VenueEntity>) -> (r: Vec<
    (ConferenceEntity, Option<VenueEntity>),
>)
    ensures
        r@.len() == conferences@.len(),
        forall|i: int|
            0 <= i < r@.len() ==> #[trigger] r@[i] == (conferences@[i], venue_shown(conferences@, venues@, i)),
{
    broadcast use vstd::std_specs::hash::group_hash_axioms;

    let ghost cs = conferences@;
    let ghost vs = venues@;
    let n_conferences = conferences.len();
    let n_venues = venues.len();
    assert(cs.len() == n_conferences && vs.len() == n_venues);
    // the venues by id, in the order given, so that a later one with the
    // same id replaces an earlier one
    let mut venues = venues;
    let mut rev: Vec<VenueEntity> = Vec::new();
    while venues.len() > 0
        invariant
            venues@.len() + rev@.len() == vs.len(),
            forall|i: int| 0 <= i < venues@.len() ==> #[trigger] venues@[i] == vs[i],
            forall|j: int| 0 <= j < rev@.len() ==> #[trigger] rev@[j] == vs[vs.len() - 1 - j],
        decreases venues@.len(),
    {
        let v = venues.pop().unwrap();
        rev.push(v);
    }
    let mut by_id: HashMap<u64, VenueEntity> = HashMap::new();
    let mut k: usize = 0;
    while rev.len() > 0
        invariant
            rev@.len() + k == vs.len(),
            vs.len() <= usize::MAX,
            forall|j: int| 0 <= j < rev@.len() ==> #[trigger] rev@[j] == vs[vs.len() - 1 - j],
            forall|id: u64|
                #![trigger by_id@.contains_key(id)]
                #![trigger last_venue_with_id(vs.take(k as int), id)]
                (by_id@.contains_key(id) <==> last_venue_with_id(vs.take(k as int), id) is Some) && (
                by_id@.contains_key(id) ==> last_venue_with_id(vs.take(k as int), id) == Some(by_id@[id])),
        decreases rev@.len(),
    {
        let v = rev.pop().unwrap();
        proof {
            assert(v == vs[k as int]);
            assert forall|id: u64| #[trigger] last_venue_with_id(vs.take(k + 1), id) == if vs[k as int].id == id {
                Some(vs[k as int])
            } else {
                last_venue_with_id(vs.take(k as int), id)
            } by {
                lemma_last_venue_take(vs, k as int, id);
            }
        }
        let id = v.id;
        by_id.insert(id, v);
        k = k + 1;
    }
    proof {
        assert(vs.take(vs.len() as int) =~= vs);
    }
    // the conferences, handed out in order
    let mut conferences = conferences;
    let mut crev: Vec<ConferenceEntity> = Vec::new();
    while conferences.len() > 0
        invariant
            conferences@.len() + crev@.len() == cs.len(),
            forall|i: int| 0 <= i < conferences@.len() ==> #[trigger] conferences@[i] == cs[i],
            forall|j: int| 0 <= j < crev@.len() ==> #[trigger] crev@[j] == cs[cs.len() - 1 - j],
        decreases conferences@.len(),
    {
        let c = conferences.pop().unwrap();
        crev.push(c);
    }
    let mut out: Vec<(ConferenceEntity, Option<VenueEntity>)> = Vec::new();
    let mut i: usize = 0;
    while crev.len() > 0
        invariant
            crev@.len() + out@.len() == cs.len(),
            i == out@.len(),
            cs.len() <= usize::MAX,
            forall|j: int| 0 <= j < crev@.len() ==> #[trigger] crev@[j] == cs[cs.len() - 1 - j],
            forall|id: u64|
                #![trigger by_id@.contains_key(id)]
                (by_id@.contains_key(id) <==> (last_venue_with_id(vs, id) is Some && !venue_taken_before(
                    cs,
                    i as int,
                    id,
                ))) && (by_id@.contains_key(id) ==> last_venue_with_id(vs, id) == Some(by_id@[id])),
            forall|j: int| 0 <= j < out@.len() ==> #[trigger] out@[j] == (cs[j], venue_shown(cs, vs, j)),
        decreases crev@.len(),
    {
        let c = crev.pop().unwrap();
        assert(c == cs[i as int]);
        let ghost before = by_id@;
        let shown = match c.venue_id {
            None => None,
            Some(k) => by_id.remove(&k),
        };
        proof {
            assert(shown == venue_shown(cs, vs, i as int));
            assert forall|id: u64| #[trigger] venue_taken_before(cs, i + 1, id) == (venue_taken_before(
                cs,
                i as int,
                id,
            ) || cs[i as int].venue_id == Some(id)) by {
                if venue_taken_before(cs, i + 1, id) && !venue_taken_before(cs, i as int, id) {
                    let j = choose|j: int| 0 <= j < i + 1 && #[trigger] cs[j].venue_id == Some(id);
                    assert(j == i);
                }
                if cs[i as int].venue_id == Some(id) {
                    assert(cs[i as int].venue_id == Some(id));
                }
                if venue_taken_before(cs, i as int, id) {
                    let j = choose|j: int| 0 <= j < i && #[trigger] cs[j].venue_id == Some(id);
                    assert(cs[j].venue_id == Some(id));
                }
            }
        }
        out.push((c, shown));
        i = i + 1;
    }
    out
}

} // verus!
