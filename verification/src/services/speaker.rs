//! Speakers: the talk a speaking participant gives.
use vstd::prelude::*;
use vstd::std_specs::convert::FromSpec;
use crate::clock::Timestamp;
use crate::update::{given_or, given_or_keep, or_stored, unwrap_or_stored};

verus! {
/// A speaker as stored.
#[derive(Debug, Clone)]
pub struct SpeakerEntity {
    pub id: u64,
    pub participant_id: u64,
    pub talk_title: String,
    pub talk_abstract: Option<String>,
    pub duration_minutes: Option<i32>,
    pub av_requirements: Option<String>,
    pub headshot: Option<String>,
    pub bio: Option<String>,
    pub created_at: Timestamp,
    pub updated_at: Timestamp,
}

/// A speaker to create (the participant is given beside it).
#[derive(Debug, Clone)]
pub struct CreateSpeakerRequest {
    pub talk_title: String,
    pub talk_abstract: Option<String>,
    pub duration_minutes: Option<i32>,
    pub av_requirements: Option<String>,
    pub headshot: Option<String>,
    pub bio: Option<String>,
}

/// Changes to a speaker; fields left out are kept.
#[derive(Debug, Clone)]
pub struct UpdateSpeakerRequest {
    pub talk_title: Option<String>,
    pub talk_abstract: Option<String>,
    pub duration_minutes: Option<i32>,
    pub av_requirements: Option<String>,
    pub headshot: Option<String>,
    pub bio: Option<String>,
}

/// The speaker service; it works through the speaker store `R`.
pub struct SpeakerServiceImpl<R> {
    speaker_repo: R,
}

impl<R> SpeakerServiceImpl<R> {
    /// The store the service reads and writes through.
    pub closed spec fn spec_speaker_repo(&self) -> R {
        self.speaker_repo
    }

    /// A service working through the given stores.
    pub fn new(speaker_repo: R) -> (r: Self)
        ensures
            r.spec_speaker_repo() == speaker_repo,
    {
        SpeakerServiceImpl { speaker_repo }
    }

    /// The store the service reads and writes through.
    pub fn speaker_repo(&self) -> (r: &R)
        ensures
            *r == self.spec_speaker_repo(),
    {
        &self.speaker_repo
    }
}

/// The speaker to store for a creation request.
pub fn new_speaker(dto: CreateSpeakerRequest, participant_id: u64, now: Timestamp) -> (r: SpeakerEntity)
    ensures
        r == (SpeakerEntity {
            id: 0,
            participant_id: participant_id,
            talk_title: dto.talk_title,
            talk_abstract: dto.talk_abstract,
            duration_minutes: dto.duration_minutes,
            av_requirements: dto.av_requirements,
            headshot: dto.headshot,
            bio: dto.bio,
            created_at: now,
            updated_at: now,
        }),
{
    SpeakerEntity {
        id: 0,
        participant_id: participant_id,
        talk_title: dto.talk_title,
        talk_abstract: dto.talk_abstract,
        duration_minutes: dto.duration_minutes,
        av_requirements: dto.av_requirements,
        headshot: dto.headshot,
        bio: dto.bio,
        created_at: now,
        updated_at: now,
    }
}

/// The stored speaker with the requested changes; fields left out are kept.
pub fn updated_speaker(stored: SpeakerEntity, dto: UpdateSpeakerRequest, now: Timestamp) -> (r: SpeakerEntity)
    ensures
        r == (SpeakerEntity {
            talk_title: given_or_keep(dto.talk_title, stored.talk_title),
            talk_abstract: given_or(dto.talk_abstract, stored.talk_abstract),
            duration_minutes: given_or(dto.duration_minutes, stored.duration_minutes),
            av_requirements: given_or(dto.av_requirements, stored.av_requirements),
            headshot: given_or(dto.headshot, stored.headshot),
            bio: given_or(dto.bio, stored.bio),
            updated_at: now,
            ..stored
        }),
{
    SpeakerEntity {
        talk_title: unwrap_or_stored(dto.talk_title, stored.talk_title),
        talk_abstract: or_stored(dto.talk_abstract, stored.talk_abstract),
        duration_minutes: or_stored(dto.duration_minutes, stored.duration_minutes),
        av_requirements: or_stored(dto.av_requirements, stored.av_requirements),
        headshot: or_stored(dto.headshot, stored.headshot),
        bio: or_stored(dto.bio, stored.bio),
        updated_at: now,
        ..stored
    }
}

/// A speaker and their talk.
#[derive(Debug, Clone)]
pub struct Speaker {
    pub id: u64,
    pub participant_id: u64,
    pub talk_title: String,
    pub talk_abstract: Option<String>,
    pub duration_minutes: Option<i32>,
    pub av_requirements: Option<String>,
    pub headshot: Option<String>,
    pub bio: Option<String>,
    pub created_at: Timestamp,
    pub updated_at: Timestamp,
}

impl From<SpeakerEntity> for Speaker {
    fn from(e: SpeakerEntity) -> (r: Speaker) {
        Speaker {
            id: e.id,
            participant_id: e.participant_id,
            talk_title: e.talk_title,
            talk_abstract: e.talk_abstract,
            duration_minutes: e.duration_minutes,
            av_requirements: e.av_requirements,
            headshot: e.headshot,
            bio: e.bio,
            created_at: e.created_at,
            updated_at: e.updated_at,
        }
    }
}

impl vstd::std_specs::convert::FromSpecImpl<SpeakerEntity> for Speaker {
    open spec fn obeys_from_spec() -> bool {
        true
    }

    /// Every field is kept.
    open spec fn from_spec(e: SpeakerEntity) -> Speaker {
        Speaker {
            id: e.id,
            participant_id: e.participant_id,
            talk_title: e.talk_title,
            talk_abstract: e.talk_abstract,
            duration_minutes: e.duration_minutes,
            av_requirements: e.av_requirements,
            headshot: e.headshot,
            bio: e.bio,
            created_at: e.created_at,
            updated_at: e.updated_at,
        }
    }
}

/// A speaker reads back with every stored field.
pub proof fn speaker_read_back(e: SpeakerEntity)
    ensures
        <Speaker as FromSpec<SpeakerEntity>>::obeys_from_spec(),
        ({
            let r = <Speaker as FromSpec<SpeakerEntity>>::from_spec(e);
            &&& r.id == e.id
            &&& r.participant_id == e.participant_id
            &&& r.talk_title == e.talk_title
            &&& r.talk_abstract == e.talk_abstract
            &&& r.duration_minutes == e.duration_minutes
            &&& r.av_requirements == e.av_requirements
            &&& r.headshot == e.headshot
            &&& r.bio == e.bio
            &&& r.created_at == e.created_at
            &&& r.updated_at == e.updated_at
        }),
{
}

} // verus!
