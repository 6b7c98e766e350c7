use vstd::prelude::*;

use crate::error::PlayError;

verus! {

/// One directory entry describing a radio stream's address and playlist format.
pub struct StationCandidate {
    pub url: String,
    pub playlist_type: Option<String>,
    pub media_type: String,
}

/// One hit of a directory text search.
pub struct SearchHit {
    pub content_type: Option<String>,
    pub guide_id: Option<String>,
}

/// A call that the resolver asks its caller to make on the station directory.
pub enum Request {
    /// Direct lookup of a station by directory id.
    Lookup(String),
    /// Text search with the given query.
    Search(String),
}

/// Where a resolution stands.
#[derive(Clone, Copy, PartialEq, Eq, Structural)]
pub enum Phase {
    /// Waiting for the direct lookup of the identifier.
    Direct,
    /// Waiting for the text search.
    Searching,
    /// Waiting for the lookup of the search hit's directory id.
    Secondary,
    /// Resolution has ended; no further reply is expected.
    Finished,
}

/// What the resolver decides after a reply.
pub enum Step {
    Issue(Request),
    Resolved(StationCandidate),
    Failed(PlayError),
}

/// Turns a station name or id into a station candidate, one directory call at a time.
pub struct StreamResolver {
    pub identifier: String,
    pub phase: Phase,
}

pub open spec fn is_audio(content_type: Option<String>) -> bool {
    match content_type {
        Some(t) => t@ == "audio"@,
        None => false,
    }
}

/// The outcome of taking the first station of a non-empty list: an empty
/// address is no station.
pub open spec fn select_first(found: Seq<StationCandidate>) -> Step
    recommends
        found.len() > 0,
{
    if found[0].url@.len() == 0 {
        Step::Failed(PlayError::NotFound)
    } else {
        Step::Resolved(found[0])
    }
}

/// Decision on a reply to a station lookup, made in `phase` for `identifier`.
pub open spec fn stations_step(
    phase: Phase,
    identifier: String,
    reply: Result<Vec<StationCandidate>, String>,
) -> (Phase, Step) {
    match reply {
        Err(e) => (Phase::Finished, Step::Failed(PlayError::LookupFailed(e))),
        Ok(found) => if found@.len() > 0 {
            (Phase::Finished, select_first(found@))
        } else if phase == Phase::Direct {
            (Phase::Searching, Step::Issue(Request::Search(identifier)))
        } else {
            (Phase::Finished, Step::Failed(PlayError::NotFound))
        },
    }
}

/// Decision on a reply to the text search.
pub open spec fn hits_step(reply: Result<Vec<SearchHit>, String>) -> (Phase, Step) {
    match reply {
        Err(e) => (Phase::Finished, Step::Failed(PlayError::LookupFailed(e))),
        Ok(hits) => if hits@.len() == 0 || !is_audio(hits@[0].content_type) {
            (Phase::Finished, Step::Failed(PlayError::NotFound))
        } else {
            match hits@[0].guide_id {
                Some(id) => (Phase::Secondary, Step::Issue(Request::Lookup(id))),
                None => (Phase::Finished, Step::Failed(PlayError::NotFound)),
            }
        },
    }
}

pub open spec fn is_terminal(s: Step) -> bool {
    !(s is Issue)
}

fn first_station(found: Vec<StationCandidate>) -> (r: Step)
    requires
        found@.len() > 0,
    ensures
        r == select_first(found@),
{
    let mut found = found;
    let first = found.remove(0);
    if first.url.as_str().is_empty() {
        Step::Failed(PlayError::NotFound)
    } else {
        Step::Resolved(first)
    }
}

impl StreamResolver {
    /// A resolver for `identifier`, waiting for its direct lookup.
    pub fn new(identifier: String) -> (r: StreamResolver)
        ensures
            r.identifier == identifier,
            r.phase == Phase::Direct,
    {
        StreamResolver { identifier, phase: Phase::Direct }
    }

    /// The first call to make: a direct lookup of the identifier as a directory id.
    pub fn first_request(&self) -> (r: Request)
        ensures
            r == Request::Lookup(self.identifier),
    {
        Request::Lookup(self.identifier.clone())
    }

    /// Whether the resolver is waiting for the reply to a station lookup.
    pub fn awaits_stations(&self) -> (r: bool)
        ensures
            r == (self.phase == Phase::Direct || self.phase == Phase::Secondary),
    {
        self.phase == Phase::Direct || self.phase == Phase::Secondary
    }

    /// Whether the resolver is waiting for the reply to a text search.
    pub fn awaits_hits(&self) -> (r: bool)
        ensures
            r == (self.phase == Phase::Searching),
    {
        self.phase == Phase::Searching
    }

    /// Takes the reply to a station lookup. After the direct lookup an empty
    /// list leads to a text search; otherwise the first station is taken.
    pub fn on_stations(&mut self, reply: Result<Vec<StationCandidate>, String>) -> (r: Step)
        requires
            old(self).phase == Phase::Direct || old(self).phase == Phase::Secondary,
        ensures
            (final(self).phase, r) == stations_step(old(self).phase, old(self).identifier, reply),
            final(self).identifier == old(self).identifier,
    {
        match reply {
            Err(e) => {
                self.phase = Phase::Finished;
                Step::Failed(PlayError::LookupFailed(e))
            },
            Ok(found) => {
                if found.len() > 0 {
                    self.phase = Phase::Finished;
                    first_station(found)
                } else if self.phase == Phase::Direct {
                    self.phase = Phase::Searching;
                    Step::Issue(Request::Search(self.identifier.clone()))
                } else {
                    self.phase = Phase::Finished;
                    Step::Failed(PlayError::NotFound)
                }
            },
        }
    }

    /// Takes the reply to the text search: the first hit must be audio and
    /// carry a directory id, which is then looked up.
    pub fn on_hits(&mut self, reply: Result<Vec<SearchHit>, String>) -> (r: Step)
        requires
            old(self).phase == Phase::Searching,
        ensures
            (final(self).phase, r) == hits_step(reply),
            final(self).identifier == old(self).identifier,
    {
        match reply {
            Err(e) => {
                self.phase = Phase::Finished;
                Step::Failed(PlayError::LookupFailed(e))
            },
            Ok(hits) => {
                if hits.len() == 0 {
                    self.phase = Phase::Finished;
                    return Step::Failed(PlayError::NotFound);
                }
                let mut hits = hits;
                let first = hits.remove(0);
                let audio = match &first.content_type {
                    Some(t) => {
                        let want = "audio".to_owned();
                        proof {
                            reveal_strlit("audio");
                        }
                        *t == want
                    },
                    None => false,
                };
                if !audio {
                    self.phase = Phase::Finished;
                    return Step::Failed(PlayError::NotFound);
                }
                match first.guide_id {
                    Some(id) => {
                        self.phase = Phase::Secondary;
                        Step::Issue(Request::Lookup(id))
                    },
                    None => {
                        self.phase = Phase::Finished;
                        Step::Failed(PlayError::NotFound)
                    },
                }
            },
        }
    }
}

/// A non-empty direct lookup selects its first entry and never leads to a search.
pub proof fn lemma_direct_hit_selects_first(
    identifier: String,
    found: Vec<StationCandidate>,
)
    requires
        found@.len() > 0,
    ensures
        ({
            let (phase, step) = stations_step(Phase::Direct, identifier, Ok(found));
            &&& phase == Phase::Finished
            &&& is_terminal(step)
            &&& step == select_first(found@)
            &&& found@[0].url@.len() > 0 ==> step == Step::Resolved(found@[0])
        }),
{
}

/// When the first search hit is not audio, resolution fails with `NotFound`.
pub proof fn lemma_non_audio_hit_not_found(hits: Vec<SearchHit>)
    requires
        hits@.len() > 0,
        !is_audio(hits@[0].content_type),
    ensures
        hits_step(Ok(hits)) == (Phase::Finished, Step::Failed(PlayError::NotFound)),
{
}

/// A search fallback issues exactly one secondary lookup, by the first hit's
/// directory id, and whatever that lookup answers, resolution then ends.
pub proof fn lemma_single_secondary_lookup(
    identifier: String,
    hits: Vec<SearchHit>,
    second: Result<Vec<StationCandidate>, String>,
)
    requires
        hits@.len() > 0,
        is_audio(hits@[0].content_type),
        hits@[0].guide_id is Some,
    ensures
        hits_step(Ok(hits)) == (
        Phase::Secondary,
        Step::Issue(Request::Lookup(hits@[0].guide_id->Some_0)),
        ),
        stations_step(Phase::Secondary, identifier, second).0 == Phase::Finished,
        is_terminal(stations_step(Phase::Secondary, identifier, second).1),
{
}

} // verus!
