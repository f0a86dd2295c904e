//! Participants of a registration and the role each one plays.
use vstd::prelude::*;
use vstd::std_specs::convert::FromSpec;
use crate::clock::Timestamp;
use crate::text::str_equals;

verus! {

/// The part a participant plays at the conference.
#[derive(Debug, Clone, Copy, PartialEq, Eq, Structural)]
pub enum ParticipantRole {
    Delegate,
    Speaker,
    Sponsor,
    Exhibitor,
}

impl ParticipantRole {
    /// The name under which the role is stored.
    pub open spec fn spec_name(self) -> Seq<char> {
        match self {
            ParticipantRole::Delegate => "delegate"@,
            ParticipantRole::Speaker => "speaker"@,
            ParticipantRole::Sponsor => "sponsor"@,
            ParticipantRole::Exhibitor => "exhibitor"@,
        }
    }

    /// The role stored under a name, if any.
    pub open spec fn spec_parse(s: Seq<char>) -> Result<ParticipantRole, ()> {
        if s == "delegate"@ {
            Ok(ParticipantRole::Delegate)
        } else if s == "speaker"@ {
            Ok(ParticipantRole::Speaker)
        } else if s == "sponsor"@ {
            Ok(ParticipantRole::Sponsor)
        } else if s == "exhibitor"@ {
            Ok(ParticipantRole::Exhibitor)
        } else {
            Err(())
        }
    }

    /// The role stored under a name, or `Delegate` for any other text.
    pub open spec fn spec_parse_or_delegate(s: Seq<char>) -> ParticipantRole {
        match ParticipantRole::spec_parse(s) {
            Ok(r) => r,
            Err(_) => ParticipantRole::Delegate,
        }
    }

    /// The name under which the role is stored.
    pub fn as_str(&self) -> (r: &'static str)
        ensures
            r@ == self.spec_name(),
    {
        match self {
            ParticipantRole::Delegate => "delegate",
            ParticipantRole::Speaker => "speaker",
            ParticipantRole::Sponsor => "sponsor",
            ParticipantRole::Exhibitor => "exhibitor",
        }
    }

    /// Reads a stored name back; any other text is refused.
    pub fn try_from(s: &str) -> (r: Result<ParticipantRole, ()>)
        ensures
            r == ParticipantRole::spec_parse(s@),
    {
        if str_equals(s, "delegate") {
            Ok(ParticipantRole::Delegate)
        } else if str_equals(s, "speaker") {
            Ok(ParticipantRole::Speaker)
        } else if str_equals(s, "sponsor") {
            Ok(ParticipantRole::Sponsor)
        } else if str_equals(s, "exhibitor") {
            Ok(ParticipantRole::Exhibitor)
        } else {
            Err(())
        }
    }
}

/// Reading back the stored name of a role gives the same role.
pub proof fn participant_role_name_round_trip(role: ParticipantRole)
    ensures
        ParticipantRole::spec_parse(role.spec_name()) == Ok::<ParticipantRole, ()>(role),
{
    reveal_strlit("delegate");
    reveal_strlit("speaker");
    reveal_strlit("sponsor");
    reveal_strlit("exhibitor");
    assert("delegate"@.len() != "speaker"@.len());
    assert("delegate"@.len() != "sponsor"@.len());
    assert("delegate"@.len() != "exhibitor"@.len());
    assert("speaker"@[2] != "sponsor"@[2]);
    assert("speaker"@.len() != "exhibitor"@.len());
    assert("sponsor"@.len() != "exhibitor"@.len());
}

/// A participant as stored: the role is kept as its name.
#[derive(Debug)]
pub struct ParticipantEntity {
    pub id: u64,
    pub registration_id: u64,
    pub client_id: u64,
    pub participant_role: String,
    pub dietary_requirements: Option<String>,
    pub accessibility_needs: Option<String>,
    pub created_at: Timestamp,
    pub updated_at: Timestamp,
}

/// A person taking part in a registration.
#[derive(Debug)]
pub struct Participant {
    pub id: u64,
    pub registration_id: u64,
    pub client_id: u64,
    pub role: ParticipantRole,
    pub dietary_requirements: Option<String>,
    pub accessibility_needs: Option<String>,
    pub created_at: Timestamp,
    pub updated_at: Timestamp,
}

impl From<ParticipantEntity> for Participant {
    fn from(e: ParticipantEntity) -> (r: Participant) {
        let role = match ParticipantRole::try_from(e.participant_role.as_str()) {
            Ok(r) => r,
            Err(_) => ParticipantRole::Delegate,
        };
        Participant {
            id: e.id,
            registration_id: e.registration_id,
            client_id: e.client_id,
            role,
            dietary_requirements: e.dietary_requirements,
            accessibility_needs: e.accessibility_needs,
            created_at: e.created_at,
            updated_at: e.updated_at,
        }
    }
}

impl vstd::std_specs::convert::FromSpecImpl<ParticipantEntity> for Participant {
    open spec fn obeys_from_spec() -> bool {
        true
    }

    /// Every field is kept; a role name that is not known reads as `Delegate`.
    open spec fn from_spec(e: ParticipantEntity) -> Participant {
        Participant {
            id: e.id,
            registration_id: e.registration_id,
            client_id: e.client_id,
            role: ParticipantRole::spec_parse_or_delegate(e.participant_role@),
            dietary_requirements: e.dietary_requirements,
            accessibility_needs: e.accessibility_needs,
            created_at: e.created_at,
            updated_at: e.updated_at,
        }
    }
}

/// A participant reads back with its stored fields; a known role name reads as
/// that role, any other as `Delegate`.
pub proof fn participant_read_back(e: ParticipantEntity)
    ensures
        <Participant as FromSpec<ParticipantEntity>>::obeys_from_spec(),
        ({
            let r = <Participant as FromSpec<ParticipantEntity>>::from_spec(e);
            &&& r.id == e.id
            &&& r.registration_id == e.registration_id
            &&& r.client_id == e.client_id
            &&& r.dietary_requirements == e.dietary_requirements
            &&& r.accessibility_needs == e.accessibility_needs
            &&& r.created_at == e.created_at
            &&& r.updated_at == e.updated_at
            &&& r.role.spec_name() == e.participant_role@ || (r.role == ParticipantRole::Delegate
                && ParticipantRole::spec_parse(e.participant_role@) is Err)
        }),
{
}

} // verus!
