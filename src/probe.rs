use vstd::prelude::*;
use crate::registry::{UsernameResult, opt_view};
use crate::text::{lower_of, lowercase};

verus! {

/// One resolved handle in a lookup response: its identity and its name.
pub struct ProfileEntry {
    pub id: String,
    pub name: String,
}

/// Status that the lookup service returns on success.
pub const STATUS_OK: u16 = 200;

/// Status that the lookup service returns when it throttles.
pub const STATUS_RATE_LIMITED: u16 = 429;

/// Status that the lookup service returns when it denies access.
pub const STATUS_FORBIDDEN: u16 = 403;

/// The classified outcome of one lookup of a batch.
pub enum FetchOutcome {
    /// At least one handle resolved: one result per input handle, in order.
    Resolved(Vec<UsernameResult>),
    /// Success status, but no handle resolved.
    Empty,
    RateLimited,
    Forbidden,
    /// A network error, a timeout, an unreadable body or another status.
    Other,
}

/// The kind of an outcome, without its results.
#[derive(Clone, Copy, Debug, PartialEq, Eq, Structural)]
pub enum OutcomeKind {
    Resolved,
    Empty,
    RateLimited,
    Forbidden,
    Other,
}

impl FetchOutcome {
    pub open spec fn kind_spec(&self) -> OutcomeKind {
        match self {
            FetchOutcome::Resolved(_) => OutcomeKind::Resolved,
            FetchOutcome::Empty => OutcomeKind::Empty,
            FetchOutcome::RateLimited => OutcomeKind::RateLimited,
            FetchOutcome::Forbidden => OutcomeKind::Forbidden,
            FetchOutcome::Other => OutcomeKind::Other,
        }
    }

    /// The kind of this outcome.
    pub fn kind(&self) -> (r: OutcomeKind)
        ensures
            r == self.kind_spec(),
    {
        match self {
            FetchOutcome::Resolved(_) => OutcomeKind::Resolved,
            FetchOutcome::Empty => OutcomeKind::Empty,
            FetchOutcome::RateLimited => OutcomeKind::RateLimited,
            FetchOutcome::Forbidden => OutcomeKind::Forbidden,
            FetchOutcome::Other => OutcomeKind::Other,
        }
    }
}

/// The kind of outcome of a response with `status` whose body was read as
/// `profiles` (`None` when it could not be read).
pub open spec fn response_kind(status: u16, profiles: Option<Seq<ProfileEntry>>) -> OutcomeKind {
    if status == STATUS_OK {
        match profiles {
            Some(p) => if p.len() > 0 {
                OutcomeKind::Resolved
            } else {
                OutcomeKind::Empty
            },
            None => OutcomeKind::Other,
        }
    } else if status == STATUS_RATE_LIMITED {
        OutcomeKind::RateLimited
    } else if status == STATUS_FORBIDDEN {
        OutcomeKind::Forbidden
    } else {
        OutcomeKind::Other
    }
}

/// The identity that `profiles` gives to the lowercase name `key`: that of
/// the last entry whose lowercase name is `key`.
pub open spec fn resolve_in(profiles: Seq<ProfileEntry>, key: Seq<char>) -> Option<Seq<char>>
    decreases profiles.len(),
{
    if profiles.len() == 0 {
        None
    } else if lower_of(profiles.last().name@) == key {
        Some(profiles.last().id@)
    } else {
        resolve_in(profiles.drop_last(), key)
    }
}

/// Result `r` reports handle `name`, resolved against `profiles`, seen at `at`.
pub open spec fn reports(r: UsernameResult, name: Seq<char>, profiles: Seq<ProfileEntry>, at: Seq<char>) -> bool {
    &&& r.username@ == name
    &&& opt_view(r.uuid) == resolve_in(profiles, lower_of(name))
    &&& r.last_seen@ == at
}

/// Looks `key` up among `profiles`, whose lowercase names are `lowered`.
fn resolve(profiles: &Vec<ProfileEntry>, lowered: &Vec<String>, key: &String) -> (r: Option<String>)
    requires
        lowered.len() == profiles.len(),
        forall|j: int| 0 <= j < lowered.len() ==> lowered@[j]@ == lower_of(#[trigger] profiles@[j].name@),
    ensures
        opt_view(r) == resolve_in(profiles@, key@),
{
    let mut j: usize = profiles.len();
    assert(profiles@.take(j as int) =~= profiles@);
    while j > 0
        invariant
            j <= profiles.len(),
            lowered.len() == profiles.len(),
            forall|m: int| 0 <= m < lowered.len() ==> lowered@[m]@ == lower_of(#[trigger] profiles@[m].name@),
            resolve_in(profiles@, key@) == resolve_in(profiles@.take(j as int), key@),
        decreases j,
    {
        let ghost pre = profiles@.take(j as int);
        assert(pre.drop_last() =~= profiles@.take(j - 1));
        assert(pre.last() == profiles@[j - 1]);
        if lowered[j - 1] == *key {
            return Some(profiles[j - 1].id.clone());
        }
        j -= 1;
    }
    assert(profiles@.take(0) =~= Seq::<ProfileEntry>::empty());
    None
}

/// Classifies one response to a lookup of `usernames`. A success status
/// with at least one profile resolves every input handle against the
/// profiles (by lowercase name), all tagged with `observed_at`; a success
/// status with no profile is `Empty`, with an unreadable body `Other`;
/// 429 is `RateLimited`, 403 `Forbidden`, any other status `Other`.
pub fn classify_response(
    usernames: &Vec<String>,
    status: u16,
    profiles: &Option<Vec<ProfileEntry>>,
    observed_at: &String,
) -> (r: FetchOutcome)
    ensures
        r.kind_spec() == response_kind(
            status,
            match profiles {
                Some(p) => Some(p@),
                None => None,
            },
        ),
        match r {
            FetchOutcome::Resolved(rs) => rs.len() == usernames.len() && forall|i: int|
                0 <= i < rs.len() ==> reports(
                    #[trigger] rs@[i],
                    usernames@[i]@,
                    profiles->Some_0@,
                    observed_at@,
                ),
            _ => true,
        },
{
    if status == STATUS_RATE_LIMITED {
        return FetchOutcome::RateLimited;
    }
    if status == STATUS_FORBIDDEN {
        return FetchOutcome::Forbidden;
    }
    if status != STATUS_OK {
        return FetchOutcome::Other;
    }
    let profiles = match profiles {
        Some(p) => p,
        None => return FetchOutcome::Other,
    };
    if profiles.len() == 0 {
        return FetchOutcome::Empty;
    }
    let mut lowered: Vec<String> = Vec::new();
    let mut j: usize = 0;
    while j < profiles.len()
        invariant
            j <= profiles.len(),
            lowered.len() == j,
            forall|m: int| 0 <= m < j ==> lowered@[m]@ == lower_of(#[trigger] profiles@[m].name@),
        decreases profiles.len() - j,
    {
        lowered.push(lowercase(profiles[j].name.as_str()));
        j += 1;
    }
    let mut results: Vec<UsernameResult> = Vec::new();
    let mut i: usize = 0;
    while i < usernames.len()
        invariant
            i <= usernames.len(),
            results.len() == i,
            lowered.len() == profiles.len(),
            forall|m: int| 0 <= m < lowered.len() ==> lowered@[m]@ == lower_of(#[trigger] profiles@[m].name@),
            forall|m: int| 0 <= m < i ==> reports(#[trigger] results@[m], usernames@[m]@, profiles@, observed_at@),
        decreases usernames.len() - i,
    {
        let key = lowercase(usernames[i].as_str());
        let uuid = resolve(profiles, &lowered, &key);
        results.push(UsernameResult {
            username: usernames[i].clone(),
            uuid,
            last_seen: observed_at.clone(),
        });
        i += 1;
    }
    FetchOutcome::Resolved(results)
}

} // verus!
