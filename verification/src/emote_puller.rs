//! The asset pipeline's bookkeeping: which assets are local, which are being
//! fetched, and who waits for them.
//!
//! The puller itself does no I/O. It is told of each event (a request, the
//! look at the file system, the end of the work) and says what has to
//! happen next, so that for one asset the work runs once however many
//! callers ask for it while it runs.

use crate::failure::{Failure, FailureView};
use crate::seventv::{download_file_name, download_url, EmoteView, SevenUserEmote};
use vstd::hash_map::StringHashMap;
use vstd::prelude::*;
use vstd::string::StringExecFns;

verus! {

/// Where an asset stands.
#[derive(Debug)]
pub enum EmoteStatus {
    /// The asset is being downloaded or converted. Holds the callers that
    /// are answered when the work ends, in the order in which they asked.
    Pending(Vec<u64>),
    /// The asset's file is in the served directory.
    Ready,
}

/// What a status is to the specifications.
pub enum StatusView {
    Pending(Seq<u64>),
    Ready,
}

impl View for EmoteStatus {
    type V = StatusView;

    open spec fn view(&self) -> StatusView {
        match self {
            EmoteStatus::Pending(waiting) => StatusView::Pending(waiting@),
            EmoteStatus::Ready => StatusView::Ready,
        }
    }
}

/// What has to happen after an event.
#[derive(Debug, Clone, Copy, PartialEq, Eq, Structural)]
pub enum PullStep {
    /// The asset is local: the caller is answered with success.
    Done,
    /// Nothing is known of the asset: look whether its file exists and
    /// report it with `arrive`.
    Probe,
    /// This caller starts the work: download, convert, move, then report
    /// the outcome with `settle`.
    Work,
    /// The work is under way: the caller is answered when it is settled.
    Wait,
}

/// The statuses of all assets, by asset identifier.
pub type PullerView = Map<Seq<char>, StatusView>;

/// A caller asks for the asset `id`.
pub open spec fn request(m: PullerView, id: Seq<char>, caller: u64) -> (PullerView, PullStep) {
    if !m.contains_key(id) {
        (m, PullStep::Probe)
    } else {
        match m[id] {
            StatusView::Ready => (m, PullStep::Done),
            StatusView::Pending(waiting) => (
                m.insert(id, StatusView::Pending(waiting.push(caller))),
                PullStep::Wait,
            ),
        }
    }
}

/// A caller asks for the asset `id`, and it is known whether the asset's
/// file exists. Of an asset that has an entry this says what `request` says.
pub open spec fn arrive(m: PullerView, id: Seq<char>, caller: u64, file_exists: bool) -> (
    PullerView,
    PullStep,
) {
    if m.contains_key(id) {
        request(m, id, caller)
    } else if file_exists {
        (m.insert(id, StatusView::Ready), PullStep::Done)
    } else {
        (m.insert(id, StatusView::Pending(seq![caller])), PullStep::Work)
    }
}

/// The work on the asset `id` has ended. Gives the callers to answer; each
/// of them gets the one outcome. After a failure the asset has no entry, so
/// that the next request starts over.
pub open spec fn settle(m: PullerView, id: Seq<char>, succeeded: bool) -> (PullerView, Seq<u64>) {
    if m.contains_key(id) && m[id] is Pending {
        (
            if succeeded {
                m.insert(id, StatusView::Ready)
            } else {
                m.remove(id)
            },
            m[id]->Pending_0,
        )
    } else {
        (m, Seq::empty())
    }
}

/// The callers of `callers` ask for the asset `id` one after another, each
/// finding of the file what `probes` says at its place.
pub open spec fn arrive_all(m: PullerView, id: Seq<char>, callers: Seq<u64>, probes: Seq<bool>) -> (
    PullerView,
    Seq<PullStep>,
)
    decreases callers.len(),
{
    if callers.len() == 0 {
        (m, Seq::empty())
    } else {
        let (earlier, steps) = arrive_all(m, id, callers.drop_last(), probes);
        let (after, step) = arrive(earlier, id, callers.last(), probes[callers.len() - 1]);
        (after, steps.push(step))
    }
}

/// The name of the file that holds an emote: its identifier with the
/// extension `gif` if it is animated, `webp` if not.
pub open spec fn emote_filename(emote: EmoteView) -> Seq<char> {
    if emote.animated {
        emote.id + ".gif"@
    } else {
        emote.id + ".webp"@
    }
}

/// The path under which an emote is served.
pub open spec fn pulled_emote_path(emote: EmoteView) -> Seq<char> {
    "./emotes/"@ + emote_filename(emote)
}

/// The work that brings one emote into the served directory.
#[derive(Debug)]
pub struct PullPlan {
    /// Where the asset is downloaded from.
    pub url: String,
    /// The name, in the temporary directory, of the downloaded file.
    pub download_name: String,
    /// Whether the downloaded file is converted to GIF, which leaves the
    /// result beside it under the emote's file name.
    pub convert: bool,
    /// The name, in the temporary directory, of the file that is moved.
    pub source_name: String,
    /// The path that the file is moved to.
    pub target: String,
}

/// What a plan is to the specifications.
pub struct PullPlanView {
    pub url: Seq<char>,
    pub download_name: Seq<char>,
    pub convert: bool,
    pub source_name: Seq<char>,
    pub target: Seq<char>,
}

impl View for PullPlan {
    type V = PullPlanView;

    open spec fn view(&self) -> PullPlanView {
        PullPlanView {
            url: self.url@,
            download_name: self.download_name@,
            convert: self.convert,
            source_name: self.source_name@,
            target: self.target@,
        }
    }
}

/// The plan for `emote`: one download, a conversion if and only if the
/// emote is animated, one move.
pub open spec fn pull_plan(emote: EmoteView) -> PullPlanView {
    PullPlanView {
        url: download_url(emote.id),
        download_name: download_file_name(emote.id),
        convert: emote.animated,
        source_name: emote_filename(emote),
        target: pulled_emote_path(emote),
    }
}

/// What is reported of a conversion that ran and ended in failure.
pub const CONVERSION_FAILED: &'static str = "Emote conversion failed";

/// What the work on one asset does next. The work begins with `Download`.
#[derive(Debug)]
pub enum WorkStep {
    /// Download the asset into the temporary directory.
    Download,
    /// Run the conversion on the downloaded file.
    Convert,
    /// Move the file into the served directory.
    Move,
    /// The work has ended with this outcome, which is to be settled.
    Finish(Result<(), Failure>),
}

/// What a step of the work is to the specifications.
pub enum WorkStepView {
    Download,
    Convert,
    Move,
    Finish(Result<(), FailureView>),
}

impl View for WorkStep {
    type V = WorkStepView;

    open spec fn view(&self) -> WorkStepView {
        match self {
            WorkStep::Download => WorkStepView::Download,
            WorkStep::Convert => WorkStepView::Convert,
            WorkStep::Move => WorkStepView::Move,
            WorkStep::Finish(Ok(_)) => WorkStepView::Finish(Ok(())),
            WorkStep::Finish(Err(failure)) => WorkStepView::Finish(Err(failure@)),
        }
    }
}

/// A step that failed with `report` fails the pipeline with that report.
pub open spec fn step_result(done: Result<(), Seq<char>>) -> Result<(), FailureView> {
    match done {
        Ok(_) => Ok(()),
        Err(report) => Err(FailureView::Pipeline(report)),
    }
}

/// What a conversion comes to. `ran` tells whether the tool could be run,
/// and if so whether it ended well. A tool that could not be started fails
/// the pipeline with the report of that; one that ran and ended in failure
/// fails it with `CONVERSION_FAILED`.
pub open spec fn conversion_result(ran: Result<bool, Seq<char>>) -> Result<(), FailureView> {
    match ran {
        Ok(ended_well) => if ended_well {
            Ok(())
        } else {
            Err(FailureView::Pipeline(CONVERSION_FAILED@))
        },
        Err(report) => Err(FailureView::Pipeline(report)),
    }
}

/// What follows the download: after a failure the work ends; otherwise the
/// conversion follows if the plan asks for one, and the move if not.
pub open spec fn after_download(plan: PullPlanView, downloaded: Result<(), Seq<char>>)
    -> WorkStepView {
    match step_result(downloaded) {
        Err(failure) => WorkStepView::Finish(Err(failure)),
        Ok(_) => if plan.convert {
            WorkStepView::Convert
        } else {
            WorkStepView::Move
        },
    }
}

/// What follows the conversion: the move if it went well, else the end of
/// the work.
pub open spec fn after_conversion(ran: Result<bool, Seq<char>>) -> WorkStepView {
    match conversion_result(ran) {
        Err(failure) => WorkStepView::Finish(Err(failure)),
        Ok(_) => WorkStepView::Move,
    }
}

/// What follows the move: the end of the work, with the outcome of the
/// move.
pub open spec fn after_move(moved: Result<(), Seq<char>>) -> WorkStepView {
    WorkStepView::Finish(step_result(moved))
}

/// How the work on one asset went.
pub struct WorkRun {
    /// The outcome that is settled.
    pub outcome: Result<(), FailureView>,
    /// How many times the asset was downloaded.
    pub downloads: nat,
    /// How many times the conversion was run.
    pub conversions: nat,
    /// How many times a file was moved into the served directory.
    pub moves: nat,
}

/// The whole work for `plan`: the steps are taken from `Download` on, one
/// after another, where `downloaded`, `ran` and `moved` say how the
/// download, the conversion and the move end if they are reached. `None`
/// stands for a work that would take a step twice.
pub open spec fn run_work(
    plan: PullPlanView,
    downloaded: Result<(), Seq<char>>,
    ran: Result<bool, Seq<char>>,
    moved: Result<(), Seq<char>>,
) -> Option<WorkRun> {
    match after_download(plan, downloaded) {
        WorkStepView::Finish(outcome) => Some(
            WorkRun { outcome, downloads: 1, conversions: 0, moves: 0 },
        ),
        WorkStepView::Move => match after_move(moved) {
            WorkStepView::Finish(outcome) => Some(
                WorkRun { outcome, downloads: 1, conversions: 0, moves: 1 },
            ),
            _ => None,
        },
        WorkStepView::Convert => match after_conversion(ran) {
            WorkStepView::Finish(outcome) => Some(
                WorkRun { outcome, downloads: 1, conversions: 1, moves: 0 },
            ),
            WorkStepView::Move => match after_move(moved) {
                WorkStepView::Finish(outcome) => Some(
                    WorkRun { outcome, downloads: 1, conversions: 1, moves: 1 },
                ),
                _ => None,
            },
            _ => None,
        },
        WorkStepView::Download => None,
    }
}

/// How a step ended, to the specifications.
pub open spec fn done_view(done: Result<(), String>) -> Result<(), Seq<char>> {
    match done {
        Ok(_) => Ok(()),
        Err(report) => Err(report@),
    }
}

/// How a conversion ended, to the specifications.
pub open spec fn ran_view(ran: Result<bool, String>) -> Result<bool, Seq<char>> {
    match ran {
        Ok(ended_well) => Ok(ended_well),
        Err(report) => Err(report@),
    }
}

/// Tells what a conversion comes to: see `conversion_result`.
pub fn conversion_outcome(ran: Result<bool, String>) -> (r: Result<(), Failure>)
    ensures
        match r {
            Ok(_) => conversion_result(ran_view(ran)) is Ok,
            Err(failure) => conversion_result(ran_view(ran)) == Err::<(), FailureView>(failure@),
        },
        match ran {
            Ok(ended_well) => (r is Ok) == ended_well,
            Err(report) => r matches Err(failure) && failure@ == FailureView::Pipeline(report@),
        },
        ran == Ok::<bool, String>(false) ==> (r matches Err(failure) && failure@
            == FailureView::Pipeline(CONVERSION_FAILED@)),
{
    match ran {
        Ok(ended_well) => {
            if ended_well {
                Ok(())
            } else {
                Err(Failure::Pipeline(CONVERSION_FAILED.to_owned()))
            }
        },
        Err(report) => Err(Failure::Pipeline(report)),
    }
}

impl PullPlan {
    /// Tells what follows the download, which ended with `downloaded`.
    pub fn after_download(&self, downloaded: Result<(), String>) -> (step: WorkStep)
        ensures
            step@ == after_download(self@, done_view(downloaded)),
    {
        match downloaded {
            Err(report) => WorkStep::Finish(Err(Failure::Pipeline(report))),
            Ok(_) => {
                if self.convert {
                    WorkStep::Convert
                } else {
                    WorkStep::Move
                }
            },
        }
    }

    /// Tells what follows the conversion: `ran` holds whether the tool
    /// ended well, or the report of why it could not be run.
    pub fn after_conversion(ran: Result<bool, String>) -> (step: WorkStep)
        ensures
            step@ == after_conversion(ran_view(ran)),
    {
        match conversion_outcome(ran) {
            Err(failure) => WorkStep::Finish(Err(failure)),
            Ok(_) => WorkStep::Move,
        }
    }

    /// Tells what follows the move, which ended with `moved`.
    pub fn after_move(moved: Result<(), String>) -> (step: WorkStep)
        ensures
            step@ == after_move(done_view(moved)),
    {
        match moved {
            Err(report) => WorkStep::Finish(Err(Failure::Pipeline(report))),
            Ok(_) => WorkStep::Finish(Ok(())),
        }
    }
}

/// The outcome of the work on one asset, and the callers that get it.
#[derive(Debug)]
pub struct Settlement {
    /// The callers to answer, in the order in which they asked.
    pub callers: Vec<u64>,
    /// What each of them is told.
    pub outcome: Result<(), Failure>,
}

/// The bookkeeping of the asset pipeline.
pub struct EmotePuller {
    emote_map: StringHashMap<EmoteStatus>,
}

impl View for EmotePuller {
    type V = PullerView;

    closed spec fn view(&self) -> PullerView {
        self.emote_map@.map_values(|status: EmoteStatus| status@)
    }
}

impl EmotePuller {
    /// A puller that knows of no asset.
    pub fn new() -> (puller: Self)
        ensures
            puller@ == Map::<Seq<char>, StatusView>::empty(),
    {
        let puller = EmotePuller { emote_map: StringHashMap::new() };
        assert(puller@ =~= Map::<Seq<char>, StatusView>::empty());
        puller
    }

    /// The name of the file that holds `emote`.
    pub fn get_emote_filename(emote: &SevenUserEmote) -> (name: String)
        ensures
            name@ == emote_filename(emote@),
    {
        if emote.animated {
            emote.id.clone().concat(".gif")
        } else {
            emote.id.clone().concat(".webp")
        }
    }

    /// The path under which `emote` is served.
    pub fn get_pulled_emote_path(emote: &SevenUserEmote) -> (path: String)
        ensures
            path@ == pulled_emote_path(emote@),
    {
        let name = Self::get_emote_filename(emote);
        String::from_str("./emotes/").concat(name.as_str())
    }

    /// The work that brings `emote` into the served directory.
    pub fn process_emote(emote: &SevenUserEmote) -> (plan: PullPlan)
        ensures
            plan@ == pull_plan(emote@),
    {
        PullPlan {
            url: crate::seventv::emote_download_url(emote.id.as_str()),
            download_name: crate::seventv::emote_download_file_name(emote.id.as_str()),
            convert: emote.animated,
            source_name: Self::get_emote_filename(emote),
            target: Self::get_pulled_emote_path(emote),
        }
    }

    /// Where the asset `id` stands, if it has an entry.
    pub fn status(&self, id: &str) -> (r: Option<&EmoteStatus>)
        ensures
            match r {
                Some(status) => self@.contains_key(id@) && self@[id@] == status@,
                None => !self@.contains_key(id@),
            },
    {
        self.emote_map.get(id)
    }

    /// `caller` asks for `emote`.
    ///
    /// An asset that is ready needs nothing more. For one that is pending
    /// the caller joins those that wait. Of one without an entry nothing
    /// changes: the file system has to be looked at first, see `arrive`.
    pub fn load_emote(&mut self, emote: &SevenUserEmote, caller: u64) -> (step: PullStep)
        ensures
            (final(self)@, step) == request(old(self)@, emote@.id, caller),
    {
        let waiting = match self.emote_map.get(emote.id.as_str()) {
            None => {
                return PullStep::Probe;
            },
            Some(EmoteStatus::Ready) => {
                return PullStep::Done;
            },
            Some(EmoteStatus::Pending(waiting)) => waiting,
        };
        let mut joined = waiting.clone();
        joined.push(caller);
        let ghost before = self.emote_map@;
        self.emote_map.insert(emote.id.clone(), EmoteStatus::Pending(joined));
        assert(self@ =~= old(self)@.insert(
            emote@.id,
            StatusView::Pending(old(self)@[emote@.id]->Pending_0.push(caller)),
        ));
        PullStep::Wait
    }

    /// `caller` asks for `emote`, and `file_exists` tells whether the file
    /// of the emote is in the served directory.
    ///
    /// Where the asset has no entry and its file exists, the asset is ready
    /// and nothing is downloaded. Where it has no entry and no file, the
    /// caller starts the work and the asset is pending. Where it has an
    /// entry, `file_exists` is not looked at and this is `load_emote`.
    pub fn arrive(&mut self, emote: &SevenUserEmote, caller: u64, file_exists: bool) -> (step:
        PullStep)
        ensures
            (final(self)@, step) == arrive(old(self)@, emote@.id, caller, file_exists),
            step == PullStep::Work <==> !old(self)@.contains_key(emote@.id) && !file_exists,
            file_exists && !(old(self)@.contains_key(emote@.id) && old(self)@[emote@.id] is Pending)
                ==> step == PullStep::Done,
    {
        if self.emote_map.contains_key(emote.id.as_str()) {
            return self.load_emote(emote, caller);
        }
        if file_exists {
            self.emote_map.insert(emote.id.clone(), EmoteStatus::Ready);
            assert(self@ =~= old(self)@.insert(emote@.id, StatusView::Ready));
            PullStep::Done
        } else {
            let mut waiting: Vec<u64> = Vec::new();
            waiting.push(caller);
            self.emote_map.insert(emote.id.clone(), EmoteStatus::Pending(waiting));
            assert(waiting@ =~= seq![caller]);
            assert(self@ =~= old(self)@.insert(emote@.id, StatusView::Pending(seq![caller])));
            PullStep::Work
        }
    }

    /// The work on `emote` has ended with `outcome`.
    ///
    /// Gives the callers that waited, with the outcome for all of them. On
    /// success the asset is ready from now on; on failure its entry is
    /// dropped. Where the asset was not pending, nothing changes and nobody
    /// is answered.
    pub fn settle(&mut self, emote: &SevenUserEmote, outcome: Result<(), Failure>) -> (settlement:
        Settlement)
        ensures
            (final(self)@, settlement.callers@) == settle(
                old(self)@,
                emote@.id,
                outcome is Ok,
            ),
            match outcome {
                Ok(_) => settlement.outcome is Ok,
                Err(failure) => settlement.outcome matches Err(told) && told@ == failure@,
            },
    {
        let callers = match self.emote_map.get(emote.id.as_str()) {
            Some(EmoteStatus::Pending(waiting)) => waiting.clone(),
            _ => {
                return Settlement { callers: Vec::new(), outcome };
            },
        };
        if outcome.is_ok() {
            self.emote_map.insert(emote.id.clone(), EmoteStatus::Ready);
            assert(self@ =~= old(self)@.insert(emote@.id, StatusView::Ready));
        } else {
            self.emote_map.remove(emote.id.as_str());
            assert(self@ =~= old(self)@.remove(emote@.id));
        }
        Settlement { callers, outcome }
    }
}

/// Single flight. When callers ask one after another for an asset that has
/// no entry and no file, the first of them starts the work and every later
/// one waits, whatever it finds of the file. All of them are then pending on
/// the asset, and when the work is settled all of them, and nobody else,
/// are answered with its one outcome. Success leaves the asset ready;
/// failure leaves the puller as it was before the first of them asked.
pub proof fn lemma_single_flight(
    m: PullerView,
    id: Seq<char>,
    callers: Seq<u64>,
    probes: Seq<bool>,
)
    requires
        !m.contains_key(id),
        callers.len() >= 1,
        probes.len() >= callers.len(),
        !probes[0],
    ensures
        ({
            let (after, steps) = arrive_all(m, id, callers, probes);
            &&& steps.len() == callers.len()
            &&& steps[0] == PullStep::Work
            &&& forall|i: int| 1 <= i < steps.len() ==> steps[i] == PullStep::Wait
            &&& after == m.insert(id, StatusView::Pending(callers))
            &&& settle(after, id, true) == (m.insert(id, StatusView::Ready), callers)
            &&& settle(after, id, false) == (m, callers)
        }),
    decreases callers.len(),
{
    let (after, steps) = arrive_all(m, id, callers, probes);
    if callers.len() == 1 {
        assert(arrive_all(m, id, callers.drop_last(), probes) == (m, Seq::<PullStep>::empty()));
        assert(seq![callers.last()] =~= callers);
    } else {
        lemma_single_flight(m, id, callers.drop_last(), probes);
        assert(callers.drop_last().push(callers.last()) =~= callers);
        let (earlier, _) = arrive_all(m, id, callers.drop_last(), probes);
        assert(after =~= m.insert(id, StatusView::Pending(callers)));
    }
    assert(settle(after, id, true).0 =~= m.insert(id, StatusView::Ready));
    assert(settle(after, id, false).0 =~= m);
}

/// An asset whose file exists is not downloaded. No caller that finds the
/// file starts the work; and unless the work is already under way for
/// another caller, the caller is answered at once and the asset is ready
/// from then on.
pub proof fn lemma_local_file_needs_no_download(m: PullerView, id: Seq<char>, caller: u64)
    ensures
        arrive(m, id, caller, true).1 != PullStep::Work,
        !(m.contains_key(id) && m[id] is Pending) ==> {
            let (after, step) = arrive(m, id, caller, true);
            step == PullStep::Done && after.contains_key(id) && after[id] is Ready
        },
{
}

/// Ready is final. Once an asset is ready it stays ready: no request, no
/// look at the file system and no settlement, for this asset or another,
/// changes that, and every request for it is answered at once.
pub proof fn lemma_ready_is_final(
    m: PullerView,
    id: Seq<char>,
    other: Seq<char>,
    caller: u64,
    file_exists: bool,
    succeeded: bool,
)
    requires
        m.contains_key(id),
        m[id] is Ready,
    ensures
        request(m, id, caller) == (m, PullStep::Done),
        arrive(m, id, caller, file_exists) == (m, PullStep::Done),
        settle(m, id, succeeded) == (m, Seq::<u64>::empty()),
        request(m, other, caller).0.contains_key(id) && request(m, other, caller).0[id] is Ready,
        arrive(m, other, caller, file_exists).0.contains_key(id) && arrive(
            m,
            other,
            caller,
            file_exists,
        ).0[id] is Ready,
        settle(m, other, succeeded).0.contains_key(id) && settle(
            m,
            other,
            succeeded,
        ).0[id] is Ready,
{
}

/// A failure is not kept. When the work on a pending asset fails, the asset
/// has no entry afterwards, and the next caller that finds no file starts
/// the work anew.
pub proof fn lemma_failure_allows_retry(m: PullerView, id: Seq<char>, caller: u64)
    requires
        m.contains_key(id),
        m[id] is Pending,
    ensures
        !settle(m, id, false).0.contains_key(id),
        request(settle(m, id, false).0, id, caller).1 == PullStep::Probe,
        arrive(settle(m, id, false).0, id, caller, false).1 == PullStep::Work,
{
}

/// The file that is moved into the served directory keeps its name: the
/// plan moves the file named after the emote to the path of that name under
/// the served directory. For an emote that is not animated this is the
/// downloaded file itself.
pub proof fn lemma_plan_moves_the_emote_file(emote: EmoteView)
    ensures
        pull_plan(emote).target == "./emotes/"@ + pull_plan(emote).source_name,
        !emote.animated ==> pull_plan(emote).source_name == pull_plan(emote).download_name,
        !emote.animated ==> !pull_plan(emote).convert,
{
}

/// The work stops at its first failure. It downloads once. It converts once
/// at most, and only what it has downloaded, and only if the plan asks for
/// it. It moves once at most, and only after every step before went well. It
/// ends well exactly if every step that the plan asks for went well, and
/// else with the report of the first step that failed.
pub proof fn lemma_work_stops_at_first_failure(
    plan: PullPlanView,
    downloaded: Result<(), Seq<char>>,
    ran: Result<bool, Seq<char>>,
    moved: Result<(), Seq<char>>,
)
    ensures
        run_work(plan, downloaded, ran, moved) is Some,
        ({
            let run = run_work(plan, downloaded, ran, moved)->0;
            let converted = !plan.convert || ran == Ok::<bool, Seq<char>>(true);
            &&& run.downloads == 1
            &&& run.conversions == (if plan.convert && downloaded is Ok {
                1nat
            } else {
                0nat
            })
            &&& run.moves == (if downloaded is Ok && converted {
                1nat
            } else {
                0nat
            })
            &&& run.outcome is Ok <==> downloaded is Ok && converted && moved is Ok
            &&& run.outcome == (if downloaded is Err {
                step_result(downloaded)
            } else if !converted {
                conversion_result(ran)
            } else {
                step_result(moved)
            })
            &&& run.outcome matches Err(failure) ==> failure is Pipeline
        }),
{
}

} // verus!
