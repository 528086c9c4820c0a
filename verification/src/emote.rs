//! The metadata cache: the emote table of each broadcaster and the emotes
//! found by global search.
//!
//! The manager makes no upstream call itself. A resolution starts with a
//! look into the cache, which either answers it or names the call that is
//! needed; the answer to that call is handed back, and the manager says what
//! follows. Requests are handled one at a time, each to its end.

use crate::failure::{Failure, FailureView};
use crate::seventv::{
    emote_views, most_popular, most_popular_emote, EmoteView, SevenUserEmote, SevenUserEmoteSet,
};
use vstd::hash_map::StringHashMap;
use vstd::prelude::*;

verus! {

/// After this many seconds a broadcaster's table counts as stale.
pub const USER_EMOTE_RELOAD_COOLDOWN: u64 = 10 * 60;

/// The emotes of one broadcaster by keyword, and when they were loaded.
pub struct TwitchUserEmoteMap {
    last_updated: u64,
    map: StringHashMap<SevenUserEmote>,
}

/// What a broadcaster's table is to the specifications.
pub struct TableView {
    pub last_updated: u64,
    pub emotes: Map<Seq<char>, EmoteView>,
}

impl View for TwitchUserEmoteMap {
    type V = TableView;

    closed spec fn view(&self) -> TableView {
        TableView {
            last_updated: self.last_updated,
            emotes: self.map@.map_values(|emote: SevenUserEmote| emote@),
        }
    }
}

impl TableView {
    /// The table is older than the cooldown at the time `now`.
    pub open spec fn is_stale(self, now: u64) -> bool {
        now > self.last_updated + USER_EMOTE_RELOAD_COOLDOWN
    }
}

/// The table that a list of emotes makes: each emote under its name. Where
/// a name comes twice, the later emote counts.
pub open spec fn keyword_table(emotes: Seq<EmoteView>) -> Map<Seq<char>, EmoteView>
    decreases emotes.len(),
{
    if emotes.len() == 0 {
        Map::empty()
    } else {
        keyword_table(emotes.drop_last()).insert(emotes.last().name, emotes.last())
    }
}

/// What the manager holds, to the specifications.
pub struct ManagerView {
    /// The table of each broadcaster that was loaded, by broadcaster id.
    pub tables: Map<Seq<char>, TableView>,
    /// The emotes that global search found, by keyword.
    pub popular: Map<Seq<char>, EmoteView>,
}

/// The two occasions on which a broadcaster's table is fetched.
#[derive(Debug, Clone, Copy, PartialEq, Eq, Structural)]
pub enum LoadKind {
    /// The broadcaster has no table yet.
    First,
    /// The keyword is missing from the broadcaster's table. The table is
    /// fetched again however fresh it is.
    Forced,
}

/// What follows in a resolution within a broadcaster's emotes.
#[derive(Debug)]
pub enum UserStep {
    /// The resolution has ended with this result.
    Done(Result<SevenUserEmote, Failure>),
    /// The broadcaster's emote set has to be fetched and handed to
    /// `load_user_emotes`.
    Load(LoadKind),
}

/// What a step is to the specifications.
pub enum UserStepView {
    Done(Result<EmoteView, FailureView>),
    Load(LoadKind),
}

impl View for UserStep {
    type V = UserStepView;

    open spec fn view(&self) -> UserStepView {
        match self {
            UserStep::Done(Ok(emote)) => UserStepView::Done(Ok(emote@)),
            UserStep::Done(Err(failure)) => UserStepView::Done(Err(failure@)),
            UserStep::Load(kind) => UserStepView::Load(*kind),
        }
    }
}

/// What follows in a global resolution.
#[derive(Debug)]
pub enum PopularStep {
    /// The keyword was resolved before: this is its emote.
    Done(SevenUserEmote),
    /// The keyword has to be searched for, and the answer handed to
    /// `store_emote`.
    Search,
}

/// What a step is to the specifications.
pub enum PopularStepView {
    Done(EmoteView),
    Search,
}

impl View for PopularStep {
    type V = PopularStepView;

    open spec fn view(&self) -> PopularStepView {
        match self {
            PopularStep::Done(emote) => PopularStepView::Done(emote@),
            PopularStep::Search => PopularStepView::Search,
        }
    }
}

/// Whether the table of the broadcaster `twitch_id` has to be fetched: it
/// has to where the broadcaster has none, and where a reload is asked for,
/// however fresh the table is. A table that is there is not fetched again
/// unless a reload is asked for, however old it is.
pub open spec fn needs_load(m: ManagerView, twitch_id: Seq<char>, reload: bool) -> bool {
    !m.tables.contains_key(twitch_id) || reload
}

/// The start of a resolution of `keyword` within the emotes of the
/// broadcaster `twitch_id`.
///
/// A keyword that the broadcaster's table holds is answered from the table,
/// however old the table is. A broadcaster without a table needs a first
/// load; a keyword missing from the table needs a forced refresh.
pub open spec fn user_step(
    m: ManagerView,
    twitch_id: Seq<char>,
    keyword: Seq<char>,
) -> UserStepView {
    if !m.tables.contains_key(twitch_id) {
        UserStepView::Load(LoadKind::First)
    } else if m.tables[twitch_id].emotes.contains_key(keyword) {
        UserStepView::Done(Ok(m.tables[twitch_id].emotes[keyword]))
    } else {
        UserStepView::Load(LoadKind::Forced)
    }
}

/// The continuation of that resolution when the fetch of kind `kind` has
/// been answered with `fetched`, at the time `now`.
///
/// A failed fetch ends the resolution and leaves the cache as it was. A
/// fetched list replaces the broadcaster's table as a whole. If the new
/// table holds the keyword, that is the answer. If not, a first load is
/// followed by one forced refresh, and a forced refresh by `NotFound`.
pub open spec fn user_loaded(
    m: ManagerView,
    twitch_id: Seq<char>,
    keyword: Seq<char>,
    kind: LoadKind,
    fetched: Result<Seq<EmoteView>, Seq<char>>,
    now: u64,
) -> (ManagerView, UserStepView) {
    match fetched {
        Err(report) => (m, UserStepView::Done(Err(FailureView::Upstream(report)))),
        Ok(emotes) => {
            let table = TableView { last_updated: now, emotes: keyword_table(emotes) };
            let loaded = ManagerView { tables: m.tables.insert(twitch_id, table), ..m };
            if table.emotes.contains_key(keyword) {
                (loaded, UserStepView::Done(Ok(table.emotes[keyword])))
            } else if kind == LoadKind::First {
                (loaded, UserStepView::Load(LoadKind::Forced))
            } else {
                (loaded, UserStepView::Done(Err(FailureView::NotFound)))
            }
        },
    }
}

/// The start of a global resolution of `keyword`.
pub open spec fn popular_step(m: ManagerView, keyword: Seq<char>) -> PopularStepView {
    if m.popular.contains_key(keyword) {
        PopularStepView::Done(m.popular[keyword])
    } else {
        PopularStepView::Search
    }
}

/// The end of a global resolution of `keyword` when the search has been
/// answered with `searched`: the emotes found, the most popular first, or
/// the report of a failure.
///
/// The best match is kept under the keyword and answered. A keyword that
/// was resolved before keeps its emote, and that emote is the answer. A
/// failed or empty search leaves the cache as it was.
pub open spec fn popular_searched(
    m: ManagerView,
    keyword: Seq<char>,
    searched: Result<Seq<EmoteView>, Seq<char>>,
) -> (ManagerView, Result<EmoteView, FailureView>) {
    if m.popular.contains_key(keyword) {
        (m, Ok(m.popular[keyword]))
    } else {
        match searched {
            Err(report) => (m, Err(FailureView::Upstream(report))),
            Ok(items) => match most_popular(items) {
                Ok(emote) => (
                    ManagerView { popular: m.popular.insert(keyword, emote), ..m },
                    Ok(emote),
                ),
                Err(failure) => (m, Err(failure)),
            },
        }
    }
}

impl TwitchUserEmoteMap {
    /// The table that `emotes` make, loaded at the time `now`.
    pub fn new(emotes: &Vec<SevenUserEmote>, now: u64) -> (table: Self)
        ensures
            table@ == (TableView {
                last_updated: now,
                emotes: keyword_table(emote_views(emotes@)),
            }),
    {
        let mut map: StringHashMap<SevenUserEmote> = StringHashMap::new();
        let ghost views = emote_views(emotes@);
        let mut i: usize = 0;
        assert(map@.map_values(|emote: SevenUserEmote| emote@) =~= keyword_table(views.take(0)));
        while i < emotes.len()
            invariant
                i <= emotes.len(),
                views == emote_views(emotes@),
                map@.map_values(|emote: SevenUserEmote| emote@) == keyword_table(
                    views.take(i as int),
                ),
            decreases emotes.len() - i,
        {
            let ghost before = map@;
            let emote = emotes[i].clone();
            proof {
                assert(views.take(i + 1).drop_last() =~= views.take(i as int));
                assert(views.take(i + 1).last() == emote@);
            }
            map.insert(emote.name.clone(), emote);
            assert(map@.map_values(|emote: SevenUserEmote| emote@) =~= before.map_values(
                |emote: SevenUserEmote| emote@,
            ).insert(emote@.name, emote@));
            i += 1;
        }
        assert(views.take(i as int) =~= views);
        TwitchUserEmoteMap { last_updated: now, map }
    }

    /// Tells whether the table is older than the cooldown at the time `now`.
    pub fn is_stale(&self, now: u64) -> (stale: bool)
        ensures
            stale == self@.is_stale(now),
    {
        now > self.last_updated && now - self.last_updated > USER_EMOTE_RELOAD_COOLDOWN
    }

    /// The emote that the table holds under `keyword`.
    pub fn get(&self, keyword: &str) -> (r: Option<&SevenUserEmote>)
        ensures
            match r {
                Some(emote) => self@.emotes.contains_key(keyword@) && self@.emotes[keyword@]
                    == emote@,
                None => !self@.emotes.contains_key(keyword@),
            },
    {
        self.map.get(keyword)
    }
}

/// The metadata cache.
pub struct EmoteManager {
    twitch_id_emotes_map: StringHashMap<TwitchUserEmoteMap>,
    popular_emote_map: StringHashMap<SevenUserEmote>,
}

impl View for EmoteManager {
    type V = ManagerView;

    closed spec fn view(&self) -> ManagerView {
        ManagerView {
            tables: self.twitch_id_emotes_map@.map_values(|table: TwitchUserEmoteMap| table@),
            popular: self.popular_emote_map@.map_values(|emote: SevenUserEmote| emote@),
        }
    }
}

impl EmoteManager {
    /// A manager with nothing cached.
    pub fn new() -> (manager: Self)
        ensures
            manager@.tables == Map::<Seq<char>, TableView>::empty(),
            manager@.popular == Map::<Seq<char>, EmoteView>::empty(),
    {
        let manager = EmoteManager {
            twitch_id_emotes_map: StringHashMap::new(),
            popular_emote_map: StringHashMap::new(),
        };
        assert(manager@.tables =~= Map::<Seq<char>, TableView>::empty());
        assert(manager@.popular =~= Map::<Seq<char>, EmoteView>::empty());
        manager
    }

    /// The table of the broadcaster `twitch_id`, if one is loaded.
    pub fn table(&self, twitch_id: &str) -> (r: Option<&TwitchUserEmoteMap>)
        ensures
            match r {
                Some(table) => self@.tables.contains_key(twitch_id@) && self@.tables[twitch_id@]
                    == table@,
                None => !self@.tables.contains_key(twitch_id@),
            },
    {
        self.twitch_id_emotes_map.get(twitch_id)
    }

    /// Tells whether the table of the broadcaster `twitch_id` has to be
    /// fetched, where `reload` tells whether a reload is asked for. The
    /// cache does not change.
    pub fn needs_load(&self, twitch_id: &str, reload: bool) -> (needed: bool)
        ensures
            needed == needs_load(self@, twitch_id@, reload),
            self@.tables.contains_key(twitch_id@) && !reload ==> !needed,
    {
        reload || !self.twitch_id_emotes_map.contains_key(twitch_id)
    }

    /// Starts the resolution of `emote_keyword` within the emotes of the
    /// broadcaster `twitch_id`. The cache does not change.
    ///
    /// A load is asked for only where `needs_load` says so: the first load
    /// where there is no table, the reload where the keyword is missing.
    pub fn get_user_emote(&self, twitch_id: &str, emote_keyword: &str) -> (step: UserStep)
        ensures
            step@ == user_step(self@, twitch_id@, emote_keyword@),
            step@ matches UserStepView::Load(kind) ==> needs_load(
                self@,
                twitch_id@,
                kind == LoadKind::Forced,
            ),
            self@.tables.contains_key(twitch_id@) && self@.tables[twitch_id@].emotes.contains_key(
                emote_keyword@,
            ) ==> step@ is Done,
    {
        if self.needs_load(twitch_id, false) {
            return UserStep::Load(LoadKind::First);
        }
        match self.twitch_id_emotes_map.get(twitch_id) {
            None => UserStep::Load(LoadKind::First),
            Some(table) => match table.get(emote_keyword) {
                Some(emote) => UserStep::Done(Ok(emote.clone())),
                None => UserStep::Load(LoadKind::Forced),
            },
        }
    }

    /// Goes on with that resolution when the fetch that it asked for has
    /// been answered: `fetched` holds the broadcaster's emote set or the
    /// report of the failure, `now` the time of the answer.
    pub fn load_user_emotes(
        &mut self,
        twitch_id: &str,
        emote_keyword: &str,
        kind: LoadKind,
        fetched: Result<SevenUserEmoteSet, String>,
        now: u64,
    ) -> (step: UserStep)
        ensures
            (final(self)@, step@) == user_loaded(
                old(self)@,
                twitch_id@,
                emote_keyword@,
                kind,
                match fetched {
                    Ok(emote_set) => Ok(emote_views(emote_set.emotes@)),
                    Err(report) => Err(report@),
                },
                now,
            ),
    {
        let emote_set = match fetched {
            Ok(emote_set) => emote_set,
            Err(report) => {
                return UserStep::Done(Err(Failure::Upstream(report)));
            },
        };
        let table = TwitchUserEmoteMap::new(&emote_set.emotes, now);
        let step = match table.get(emote_keyword) {
            Some(emote) => UserStep::Done(Ok(emote.clone())),
            None => match kind {
                LoadKind::First => UserStep::Load(LoadKind::Forced),
                LoadKind::Forced => UserStep::Done(Err(Failure::NotFound)),
            },
        };
        self.twitch_id_emotes_map.insert(twitch_id.to_owned(), table);
        assert(self@.tables =~= old(self)@.tables.insert(twitch_id@, table@));
        step
    }

    /// Starts the global resolution of `emote_keyword`. The cache does not
    /// change.
    pub fn get_emote(&self, emote_keyword: &str) -> (step: PopularStep)
        ensures
            step@ == popular_step(self@, emote_keyword@),
    {
        match self.popular_emote_map.get(emote_keyword) {
            Some(emote) => PopularStep::Done(emote.clone()),
            None => PopularStep::Search,
        }
    }

    /// Ends the global resolution of `emote_keyword` when the search has
    /// been answered: `searched` holds the emotes found, the most popular
    /// first, or the report of the failure.
    pub fn store_emote(
        &mut self,
        emote_keyword: &str,
        searched: Result<Vec<SevenUserEmote>, String>,
    ) -> (r: Result<SevenUserEmote, Failure>)
        ensures
            ({
                let (after, answer) = popular_searched(
                    old(self)@,
                    emote_keyword@,
                    match searched {
                        Ok(items) => Ok(emote_views(items@)),
                        Err(report) => Err(report@),
                    },
                );
                &&& final(self)@ == after
                &&& match r {
                    Ok(emote) => answer == Ok::<EmoteView, FailureView>(emote@),
                    Err(failure) => answer == Err::<EmoteView, FailureView>(failure@),
                }
            }),
    {
        match self.popular_emote_map.get(emote_keyword) {
            Some(emote) => {
                return Ok(emote.clone());
            },
            None => {},
        }
        let items = match searched {
            Ok(items) => items,
            Err(report) => {
                return Err(Failure::Upstream(report));
            },
        };
        let emote = most_popular_emote(&items)?;
        self.popular_emote_map.insert(emote_keyword.to_owned(), emote.clone());
        assert(self@.popular =~= old(self)@.popular.insert(emote_keyword@, emote@));
        Ok(emote)
    }
}

/// One answer of the emote-set service, and the time at which it came.
pub struct Answer {
    pub fetched: Result<Seq<EmoteView>, Seq<char>>,
    pub now: u64,
}

/// How a resolution ended.
pub struct Resolution {
    /// What the manager holds afterwards.
    pub state: ManagerView,
    /// What the requester is told.
    pub result: Result<EmoteView, FailureView>,
    /// How many times the emote-set service was called.
    pub calls: nat,
}

/// A whole resolution of `keyword` within the emotes of `twitch_id`: the
/// steps are taken one after another, and each call that a step asks for is
/// answered by the next of `first`, `second`. `None` stands for a resolution
/// that would ask for a third call.
pub open spec fn resolve_user(
    m: ManagerView,
    twitch_id: Seq<char>,
    keyword: Seq<char>,
    first: Answer,
    second: Answer,
) -> Option<Resolution> {
    match user_step(m, twitch_id, keyword) {
        UserStepView::Done(result) => Some(Resolution { state: m, result, calls: 0 }),
        UserStepView::Load(kind) => {
            let (loaded, step) = user_loaded(m, twitch_id, keyword, kind, first.fetched, first.now);
            match step {
                UserStepView::Done(result) => Some(Resolution { state: loaded, result, calls: 1 }),
                UserStepView::Load(again) => {
                    let (reloaded, last) = user_loaded(
                        loaded,
                        twitch_id,
                        keyword,
                        again,
                        second.fetched,
                        second.now,
                    );
                    match last {
                        UserStepView::Done(result) => Some(
                            Resolution { state: reloaded, result, calls: 2 },
                        ),
                        UserStepView::Load(_) => None,
                    }
                },
            }
        },
    }
}

/// A table holds each emote under the emote's own name, and it holds a
/// keyword exactly if one of the listed emotes has that name.
pub proof fn lemma_table_is_keyed_by_name(emotes: Seq<EmoteView>, keyword: Seq<char>)
    ensures
        keyword_table(emotes).contains_key(keyword) <==> exists|i: int|
            0 <= i < emotes.len() && (#[trigger] emotes[i]).name == keyword,
        keyword_table(emotes).contains_key(keyword) ==> keyword_table(emotes)[keyword].name
            == keyword,
    decreases emotes.len(),
{
    if emotes.len() > 0 {
        let earlier = emotes.drop_last();
        lemma_table_is_keyed_by_name(earlier, keyword);
        if keyword_table(emotes).contains_key(keyword) {
            if emotes.last().name == keyword {
                assert(emotes[emotes.len() - 1].name == keyword);
            } else {
                let i = choose|i: int| 0 <= i < earlier.len() && (#[trigger] earlier[i]).name
                    == keyword;
                assert(emotes[i].name == keyword);
            }
        }
        if exists|i: int| 0 <= i < emotes.len() && (#[trigger] emotes[i]).name == keyword {
            let i = choose|i: int| 0 <= i < emotes.len() && (#[trigger] emotes[i]).name == keyword;
            if i < earlier.len() {
                assert(earlier[i].name == keyword);
            }
        }
    }
}

/// A resolution ends. It never asks for a third call: a first load is
/// followed by one forced refresh at most, and a forced refresh by none.
pub proof fn lemma_resolution_ends(
    m: ManagerView,
    twitch_id: Seq<char>,
    keyword: Seq<char>,
    first: Answer,
    second: Answer,
)
    ensures
        resolve_user(m, twitch_id, keyword, first, second) is Some,
        resolve_user(m, twitch_id, keyword, first, second)->0.calls <= 2,
        m.tables.contains_key(twitch_id) ==> resolve_user(
            m,
            twitch_id,
            keyword,
            first,
            second,
        )->0.calls <= 1,
{
}

/// A keyword that the broadcaster's table holds is answered from the table
/// without a call, and the cache stays as it is. The age of the table plays
/// no part: `m` may hold a table of any age.
pub proof fn lemma_hit_makes_no_call(
    m: ManagerView,
    twitch_id: Seq<char>,
    keyword: Seq<char>,
    first: Answer,
    second: Answer,
)
    requires
        m.tables.contains_key(twitch_id),
        m.tables[twitch_id].emotes.contains_key(keyword),
    ensures
        resolve_user(m, twitch_id, keyword, first, second) == Some(
            Resolution { state: m, result: Ok(m.tables[twitch_id].emotes[keyword]), calls: 0 },
        ),
{
}

/// Of two resolutions of one keyword in succession, the second makes no
/// call if the first found the emote, and it finds the same emote.
pub proof fn lemma_second_resolution_makes_no_call(
    m: ManagerView,
    twitch_id: Seq<char>,
    keyword: Seq<char>,
    first: Answer,
    second: Answer,
    third: Answer,
    fourth: Answer,
)
    requires
        resolve_user(m, twitch_id, keyword, first, second) is Some,
        resolve_user(m, twitch_id, keyword, first, second)->0.result is Ok,
    ensures
        ({
            let once = resolve_user(m, twitch_id, keyword, first, second)->0;
            resolve_user(once.state, twitch_id, keyword, third, fourth) == Some(
                Resolution { state: once.state, result: once.result, calls: 0 },
            )
        }),
{
}

/// A keyword that is missing from the broadcaster's table makes exactly one
/// call, the forced refresh, whatever the age of the table. The resolution
/// then ends: with the emote if the fetched list names it, with `NotFound`
/// if it does not, with the report if the call failed.
pub proof fn lemma_miss_refreshes_once(
    m: ManagerView,
    twitch_id: Seq<char>,
    keyword: Seq<char>,
    first: Answer,
    second: Answer,
)
    requires
        m.tables.contains_key(twitch_id),
        !m.tables[twitch_id].emotes.contains_key(keyword),
    ensures
        user_step(m, twitch_id, keyword) == UserStepView::Load(LoadKind::Forced),
        resolve_user(m, twitch_id, keyword, first, second) is Some,
        ({
            let ended = resolve_user(m, twitch_id, keyword, first, second)->0;
            &&& ended.calls == 1
            &&& match first.fetched {
                Err(report) => ended.result == Err::<EmoteView, FailureView>(
                    FailureView::Upstream(report),
                ) && ended.state == m,
                Ok(emotes) => if keyword_table(emotes).contains_key(keyword) {
                    ended.result == Ok::<EmoteView, FailureView>(keyword_table(emotes)[keyword])
                } else {
                    ended.result == Err::<EmoteView, FailureView>(FailureView::NotFound)
                },
            }
        }),
{
}

/// A load touches one table only: the tables of the other broadcasters and
/// the emotes of global search stay as they are. A failed load touches
/// nothing, and a load that succeeds replaces the table as a whole.
pub proof fn lemma_load_is_local(
    m: ManagerView,
    twitch_id: Seq<char>,
    keyword: Seq<char>,
    kind: LoadKind,
    answer: Answer,
    other: Seq<char>,
)
    ensures
        ({
            let after = user_loaded(m, twitch_id, keyword, kind, answer.fetched, answer.now).0;
            &&& after.popular == m.popular
            &&& other != twitch_id ==> after.tables.contains_key(other) == m.tables.contains_key(
                other,
            )
            &&& other != twitch_id && m.tables.contains_key(other) ==> after.tables[other]
                == m.tables[other]
            &&& answer.fetched is Err ==> after == m
            &&& answer.fetched matches Ok(emotes) ==> after.tables.contains_key(twitch_id)
                && after.tables[twitch_id] == (TableView {
                last_updated: answer.now,
                emotes: keyword_table(emotes),
            })
        }),
{
}

/// An emote of global search is resolved once. What a search stores is
/// what the start of the next resolution answers, without a search; and no
/// search changes the emote of a keyword that has one, nor any table.
pub proof fn lemma_popular_is_resolved_once(
    m: ManagerView,
    keyword: Seq<char>,
    searched: Result<Seq<EmoteView>, Seq<char>>,
    other: Seq<char>,
)
    ensures
        ({
            let (after, answer) = popular_searched(m, keyword, searched);
            &&& after.tables == m.tables
            &&& answer matches Ok(emote) ==> popular_step(after, keyword) == PopularStepView::Done(
                emote,
            )
            &&& answer is Err ==> after == m
            &&& m.popular.contains_key(other) ==> after.popular.contains_key(other)
                && after.popular[other] == m.popular[other]
            &&& !m.popular.contains_key(keyword) && searched is Ok ==> answer == most_popular(
                searched->Ok_0,
            )
        }),
{
}

} // verus!
