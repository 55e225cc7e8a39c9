use vstd::prelude::*;
use vstd::string::StringExecFns;
use rand::Rng;
use rand::SeedableRng;
use rand::TryRngCore;
use crate::json::Json;
use crate::rpc::{
    episode_details_request, is_episode_details_request, is_list_episodes_request,
    is_list_shows_request, list_episodes_request, list_shows_request, RpcError,
};

verus! {

/// The index below `len` that a ChaCha12 generator seeded with `seed` draws
/// first, as `choose` on a slice of that length draws it.
pub uninterp spec fn seeded_index(seed: Seq<u8>, len: nat) -> nat;

/// Relies on `rand_chacha::ChaCha12Rng::from_seed` and `rand::Rng::random_range`:
/// the draw depends on the seed and the bound alone, and lies below the bound
/// (an empty range panics, which `requires` leaves out).
#[verifier::external_body]
fn draw_index(seed: [u8; 32], len: usize) -> (r: usize)
    requires
        len > 0,
    ensures
        r < len,
        r as nat == seeded_index(seed@, len as nat),
{
    rand_chacha::ChaCha12Rng::from_seed(seed).random_range(..len)
}

/// Relies on `rand::rng` and `TryRngCore::try_fill_bytes`: a seed drawn from
/// the thread's generator, which the operating system's entropy seeds.
/// Nothing is known of its bytes.
#[verifier::external_body]
pub(crate) fn fresh_seed() -> (r: [u8; 32]) {
    let mut seed = [0u8; 32];
    let _ = rand::rng().try_fill_bytes(&mut seed);
    seed
}

/// The item that a generator seeded with `seed` picks from `items`.
pub open spec fn seeded_choice<T>(items: Seq<T>, seed: Seq<u8>) -> Option<T> {
    if items.len() == 0 {
        None
    } else {
        Some(items[seeded_index(seed, items.len()) as int])
    }
}

/// Picks one of `items` with a generator seeded with `seed`; `None` when
/// there is none.
pub fn choose_with_seed<T>(items: &[T], seed: [u8; 32]) -> (r: Option<&T>)
    ensures
        match r {
            Some(x) => seeded_choice(items@, seed@) == Some(*x),
            None => seeded_choice(items@, seed@) is None,
        },
        r is None <==> items@.len() == 0,
        items@.len() > 0 ==> seeded_index(seed@, items@.len()) < items@.len(),
        match r {
            Some(x) => exists|i: int| 0 <= i < items@.len() && items@[i] == *x,
            None => true,
        },
{
    if items.len() == 0 {
        None
    } else {
        let i = draw_index(seed, items.len());
        assert(items@[i as int] == items[i as int]);
        Some(&items[i])
    }
}

/// Picks one show name uniformly at random, from a fresh seed.
pub fn select_random_show_name(shows: &[String]) -> (r: Option<&String>)
    ensures
        r is None <==> shows@.len() == 0,
        match r {
            Some(s) => exists|i: int| 0 <= i < shows@.len() && shows@[i] == *s,
            None => true,
        },
{
    let seed = fresh_seed();
    choose_with_seed(shows, seed)
}

/// One episode chosen for playback.
#[derive(Debug, Clone)]
pub struct SelectedEpisode {
    pub episode_id: u64,
    pub episode_file_path: String,
}

impl SelectedEpisode {
    /// The text that names the episode: its file path.
    pub fn display(&self) -> (r: String)
        ensures
            r@ == self.episode_file_path@,
    {
        self.episode_file_path.clone()
    }
}

/// The three calls of a resolution, in their order.
#[derive(PartialEq, Eq, Structural, Clone, Copy, Debug)]
pub enum ResolveStep {
    ListShows,
    ListEpisodes,
    EpisodeDetails,
}

/// Why a show title could not be resolved to an episode.
#[derive(Debug)]
pub enum ResolveError {
    /// The call of the given step failed.
    Rpc(ResolveStep, RpcError),
    /// No show of the library has this exact title.
    ShowNotFound(String),
    /// The show with the title carries no numeric identifier.
    MissingShowId,
    /// The show has no episodes.
    NoEpisodesAvailable,
    /// An episode of the show carries no numeric identifier.
    MissingEpisodeId,
    /// The details of the chosen episode name no file.
    EpisodeDetailsIncomplete,
}

/// The entries of the list `key` under `result` in a reply; none where the
/// reply holds no such list.
pub open spec fn listed(reply: Json, key: Seq<char>) -> Seq<Json> {
    match reply.member("result"@) {
        Some(result) => match result.member(key) {
            Some(Json::Array(items)) => items@,
            _ => Seq::empty(),
        },
        None => Seq::empty(),
    }
}

/// Whether a show entry has exactly the title `title`.
pub open spec fn has_title(entry: Json, title: Seq<char>) -> bool {
    entry.member("title"@) matches Some(Json::Str(t)) && t@ == title
}

/// Whether `k` is the first of `shows` with the title `title`.
pub open spec fn is_first_match(shows: Seq<Json>, title: Seq<char>, k: int) -> bool {
    &&& 0 <= k < shows.len()
    &&& has_title(shows[k], title)
    &&& forall|j: int| 0 <= j < k ==> !has_title(#[trigger] shows[j], title)
}

/// Whether the member `key` of `entry` is an integer at or above zero.
pub open spec fn has_uint(entry: Json, key: Seq<char>) -> bool {
    entry.member(key) matches Some(Json::UInt(_))
}

/// The member `key` of `entry` where it is an integer at or above zero.
pub open spec fn uint_of(entry: Json, key: Seq<char>) -> u64 {
    match entry.member(key) {
        Some(Json::UInt(n)) => n,
        _ => 0,
    }
}

/// The file that a reply to an episode-details request names.
pub open spec fn details_file(reply: Json) -> Option<Seq<char>> {
    match reply.member("result"@) {
        Some(result) => match result.member("episodedetails"@) {
            Some(details) => match details.member("file"@) {
                Some(Json::Str(f)) => Some(f@),
                _ => None,
            },
            None => None,
        },
        None => None,
    }
}

/// The items of the list `key` under `result` in `reply`.
fn listed_items<'a>(reply: &'a Json, key: &str) -> (r: &'a [Json])
    ensures
        r@ == listed(*reply, key@),
{
    match reply.get(&String::from_str("result")) {
        Some(result) => match result.get(&String::from_str(key)) {
            Some(list) => match list.as_array() {
                Some(items) => items.as_slice(),
                None => &[],
            },
            None => &[],
        },
        None => &[],
    }
}

/// The identifier of the first show titled exactly `title` in a reply to
/// the show listing.
pub fn find_show_id(reply: &Json, title: &String) -> (r: Result<u64, ResolveError>)
    ensures
        ({
            let shows = listed(*reply, "tvshows"@);
            match r {
                Ok(id) => exists|k: int|
                    is_first_match(shows, title@, k) && shows[k].member("tvshowid"@) == Some(
                        Json::UInt(id),
                    ),
                Err(ResolveError::ShowNotFound(t)) => t@ == title@ && forall|i: int|
                    0 <= i < shows.len() ==> !has_title(#[trigger] shows[i], title@),
                Err(ResolveError::MissingShowId) => exists|k: int|
                    is_first_match(shows, title@, k) && !has_uint(shows[k], "tvshowid"@),
                Err(_) => false,
            }
        }),
{
    let shows = listed_items(reply, "tvshows");
    let title_key = String::from_str("title");
    let mut i: usize = 0;
    while i < shows.len()
        invariant
            shows@ == listed(*reply, "tvshows"@),
            title_key@ == "title"@,
            i <= shows@.len(),
            forall|j: int| 0 <= j < i ==> !has_title(#[trigger] shows@[j], title@),
        decreases shows@.len() - i,
    {
        let matched = match shows[i].get(&title_key) {
            Some(t) => match t.as_str() {
                Some(s) => *s == *title,
                None => false,
            },
            None => false,
        };
        if matched {
            assert(is_first_match(shows@, title@, i as int));
            return match shows[i].get(&String::from_str("tvshowid")) {
                Some(id) => match id.as_u64() {
                    Some(n) => Ok(n),
                    None => Err(ResolveError::MissingShowId),
                },
                None => Err(ResolveError::MissingShowId),
            };
        }
        i = i + 1;
    }
    Err(ResolveError::ShowNotFound(title.clone()))
}

/// The identifiers of the episodes in a reply to the episode listing.
pub fn collect_episode_ids(reply: &Json) -> (r: Result<Vec<u64>, ResolveError>)
    ensures
        ({
            let eps = listed(*reply, "episodes"@);
            match r {
                Ok(ids) => {
                    &&& eps.len() > 0
                    &&& ids@.len() == eps.len()
                    &&& forall|i: int|
                        0 <= i < eps.len() ==> #[trigger] eps[i].member("episodeid"@) == Some(
                            Json::UInt(ids@[i]),
                        )
                },
                Err(ResolveError::NoEpisodesAvailable) => eps.len() == 0,
                Err(ResolveError::MissingEpisodeId) => eps.len() > 0 && exists|i: int|
                    0 <= i < eps.len() && !has_uint(#[trigger] eps[i], "episodeid"@),
                Err(_) => false,
            }
        }),
{
    let eps = listed_items(reply, "episodes");
    if eps.len() == 0 {
        return Err(ResolveError::NoEpisodesAvailable);
    }
    let id_key = String::from_str("episodeid");
    let mut ids: Vec<u64> = Vec::new();
    let mut i: usize = 0;
    while i < eps.len()
        invariant
            eps@ == listed(*reply, "episodes"@),
            eps@.len() > 0,
            id_key@ == "episodeid"@,
            i <= eps@.len(),
            ids@.len() == i,
            forall|j: int|
                0 <= j < i ==> #[trigger] eps@[j].member("episodeid"@) == Some(
                    Json::UInt(ids@[j]),
                ),
        decreases eps@.len() - i,
    {
        match eps[i].get(&id_key) {
            Some(id) => match id.as_u64() {
                Some(n) => ids.push(n),
                None => {
                    assert(!has_uint(eps@[i as int], "episodeid"@));
                    return Err(ResolveError::MissingEpisodeId);
                },
            },
            None => {
                assert(!has_uint(eps@[i as int], "episodeid"@));
                return Err(ResolveError::MissingEpisodeId);
            },
        }
        i = i + 1;
    }
    Ok(ids)
}

/// The file path in a reply to the episode-details request.
pub fn episode_file_path(reply: &Json) -> (r: Result<String, ResolveError>)
    ensures
        match r {
            Ok(f) => details_file(*reply) == Some(f@),
            Err(ResolveError::EpisodeDetailsIncomplete) => details_file(*reply) is None,
            Err(_) => false,
        },
{
    match reply.get(&String::from_str("result")) {
        Some(result) => match result.get(&String::from_str("episodedetails")) {
            Some(details) => match details.get(&file_key()) {
                Some(file) => match file.as_str() {
                    Some(f) => Ok(f.clone()),
                    None => Err(ResolveError::EpisodeDetailsIncomplete),
                },
                None => Err(ResolveError::EpisodeDetailsIncomplete),
            },
            None => Err(ResolveError::EpisodeDetailsIncomplete),
        },
        None => Err(ResolveError::EpisodeDetailsIncomplete),
    }
}

fn file_key() -> (r: String)
    ensures
        r@ == "file"@,
{
    String::from_str("file")
}

/// Where a resolution stands: the call whose answer it awaits.
#[derive(Debug)]
pub enum Resolution {
    AwaitShows { title: String },
    AwaitEpisodes { show_id: u64 },
    AwaitDetails { episode_id: u64 },
}

/// What a resolution does once an answer has come.
#[derive(Debug)]
pub enum Progress {
    /// Send the request of the new state next.
    Next(Resolution),
    /// The episode to play.
    Done(SelectedEpisode),
    /// The resolution ends without an episode.
    Failed(ResolveError),
}

impl Resolution {
    /// The step whose answer the resolution awaits.
    pub open spec fn step(self) -> ResolveStep {
        match self {
            Resolution::AwaitShows { .. } => ResolveStep::ListShows,
            Resolution::AwaitEpisodes { .. } => ResolveStep::ListEpisodes,
            Resolution::AwaitDetails { .. } => ResolveStep::EpisodeDetails,
        }
    }

    /// Whether `p` is what follows `self` when `reply` answers its request
    /// and `seed` seeds the choice of an episode.
    pub open spec fn advances_to(
        self,
        reply: Result<Json, RpcError>,
        seed: Seq<u8>,
        p: Progress,
    ) -> bool {
        match reply {
            Err(e) => p == Progress::Failed(ResolveError::Rpc(self.step(), e)),
            Ok(j) => match self {
                Resolution::AwaitShows { title } => {
                    let shows = listed(j, "tvshows"@);
                    if forall|i: int| 0 <= i < shows.len() ==> !has_title(#[trigger] shows[i], title@) {
                        p matches Progress::Failed(ResolveError::ShowNotFound(t)) && t@ == title@
                    } else {
                        exists|k: int|
                            is_first_match(shows, title@, k) && if has_uint(shows[k], "tvshowid"@) {
                                p == Progress::Next(
                                    Resolution::AwaitEpisodes { show_id: uint_of(shows[k], "tvshowid"@) },
                                )
                            } else {
                                p == Progress::Failed(ResolveError::MissingShowId)
                            }
                    }
                },
                Resolution::AwaitEpisodes { .. } => {
                    let eps = listed(j, "episodes"@);
                    if eps.len() == 0 {
                        p == Progress::Failed(ResolveError::NoEpisodesAvailable)
                    } else if forall|i: int| 0 <= i < eps.len() ==> has_uint(#[trigger] eps[i], "episodeid"@) {
                        &&& seeded_index(seed, eps.len()) < eps.len()
                        &&& p == Progress::Next(
                            Resolution::AwaitDetails {
                                episode_id: uint_of(eps[seeded_index(seed, eps.len()) as int], "episodeid"@),
                            },
                        )
                    } else {
                        p == Progress::Failed(ResolveError::MissingEpisodeId)
                    }
                },
                Resolution::AwaitDetails { episode_id } => match details_file(j) {
                    Some(f) => p matches Progress::Done(e) && e.episode_id == episode_id
                        && e.episode_file_path@ == f,
                    None => p == Progress::Failed(ResolveError::EpisodeDetailsIncomplete),
                },
            },
        }
    }

    /// A resolution of the show titled `title`, about to list the shows.
    pub fn start(title: String) -> (r: Resolution)
        ensures
            r == (Resolution::AwaitShows { title }),
    {
        Resolution::AwaitShows { title }
    }

    /// The request to send for the step the resolution stands at.
    pub fn request(&self) -> (r: Json)
        ensures
            match *self {
                Resolution::AwaitShows { .. } => is_list_shows_request(r),
                Resolution::AwaitEpisodes { show_id } => is_list_episodes_request(r, show_id),
                Resolution::AwaitDetails { episode_id } => is_episode_details_request(r, episode_id),
            },
    {
        match self {
            Resolution::AwaitShows { .. } => list_shows_request(),
            Resolution::AwaitEpisodes { show_id } => list_episodes_request(*show_id),
            Resolution::AwaitDetails { episode_id } => episode_details_request(*episode_id),
        }
    }

    /// The step that follows the answer `reply`, with `seed` seeding the
    /// choice of an episode.
    pub fn advance(self, reply: Result<Json, RpcError>, seed: [u8; 32]) -> (p: Progress)
        ensures
            self.advances_to(reply, seed@, p),
    {
        match reply {
            Err(e) => {
                let step = match self {
                    Resolution::AwaitShows { .. } => ResolveStep::ListShows,
                    Resolution::AwaitEpisodes { .. } => ResolveStep::ListEpisodes,
                    Resolution::AwaitDetails { .. } => ResolveStep::EpisodeDetails,
                };
                Progress::Failed(ResolveError::Rpc(step, e))
            },
            Ok(j) => match self {
                Resolution::AwaitShows { title } => match find_show_id(&j, &title) {
                    Ok(show_id) => Progress::Next(Resolution::AwaitEpisodes { show_id }),
                    Err(e) => Progress::Failed(e),
                },
                Resolution::AwaitEpisodes { .. } => match collect_episode_ids(&j) {
                    Ok(ids) => {
                        let episode_id = *choose_with_seed(ids.as_slice(), seed).unwrap();
                        Progress::Next(Resolution::AwaitDetails { episode_id })
                    },
                    Err(e) => Progress::Failed(e),
                },
                Resolution::AwaitDetails { episode_id } => match episode_file_path(&j) {
                    Ok(episode_file_path) => Progress::Done(
                        SelectedEpisode { episode_id, episode_file_path },
                    ),
                    Err(e) => Progress::Failed(e),
                },
            },
        }
    }

    /// The step that follows the answer `reply`, with a seed drawn fresh
    /// from the operating system's entropy; the outcome is the one that
    /// `advance` gives for some seed.
    pub fn advance_fresh(self, reply: Result<Json, RpcError>) -> (p: Progress)
        ensures
            exists|seed: Seq<u8>| seed.len() == 32 && self.advances_to(reply, seed, p),
    {
        let seed = fresh_seed();
        let ghost s = self;
        let p = self.advance(reply, seed);
        assert(seed@.len() == 32);
        assert(s.advances_to(reply, seed@, p));
        p
    }
}

/// Choosing an episode is reproducible: with the same seed, the same answer
/// to the episode listing always leads to the same next step, which names
/// an episode of the listing; an empty listing always fails with
/// `NoEpisodesAvailable`.
pub proof fn lemma_episode_choice_reproducible(
    show_id: u64,
    reply: Json,
    seed: Seq<u8>,
    first: Progress,
    second: Progress,
)
    requires
        (Resolution::AwaitEpisodes { show_id }).advances_to(Ok(reply), seed, first),
        (Resolution::AwaitEpisodes { show_id }).advances_to(Ok(reply), seed, second),
    ensures
        first == second,
        listed(reply, "episodes"@).len() == 0 ==> first == Progress::Failed(
            ResolveError::NoEpisodesAvailable,
        ),
        first matches Progress::Next(Resolution::AwaitDetails { episode_id }) ==> exists|i: int|
            0 <= i < listed(reply, "episodes"@).len() && #[trigger] listed(
                reply,
                "episodes"@,
            )[i].member("episodeid"@) == Some(Json::UInt(episode_id)),
{
    let eps = listed(reply, "episodes"@);
    if let Progress::Next(Resolution::AwaitDetails { episode_id }) = first {
        let i = seeded_index(seed, eps.len()) as int;
        assert(has_uint(eps[i], "episodeid"@));
        assert(eps[i].member("episodeid"@) == Some(Json::UInt(episode_id)));
    }
}

} // verus!
