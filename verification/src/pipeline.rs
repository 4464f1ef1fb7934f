//! The coordinator of one request.
//!
//! A request runs through the stages `Fetching`, `Extracting` and
//! `Moderating` to `Done`; `Failed` is reached from the first two only. The
//! coordinator does nothing by itself: it names the next action, the caller
//! performs it and reports the event, and the coordinator moves on. An
//! event that does not answer the pending action changes nothing.

use crate::error::{PipelineError, PipelineErrorView};
use crate::extract::{frame_files, ordered_frames, texts_of};
use crate::locator::{SourceLocator, invalid_locator, parsed_url};
use crate::order::{Frame, is_ordering_of, paths_of, sorted_by_index};
use crate::verdict::{ModerationVerdict, VerdictView};
use vstd::prelude::*;

verus! {

/// The stages of a request.
#[derive(Clone, Copy, Debug, PartialEq, Eq, Structural)]
pub enum Stage {
    Fetching,
    Extracting,
    Moderating,
    Done,
    Failed,
}

/// The steps within the stages: each but the last two waits for one event.
#[derive(Clone, Copy, Debug, PartialEq, Eq, Structural)]
pub enum Step {
    /// Fetching: the source has been asked for.
    Requesting,
    /// Fetching: the body is being stored.
    Storing,
    /// Extracting: the decoder runs.
    Decoding,
    /// Extracting: the files that it left are being listed.
    Collecting,
    /// Moderating: a verdict on the first waiting frame is being sought.
    Judging,
    /// Moderating: the pause after a verdict.
    Pausing,
    Done,
    Failed,
}

/// The stage to which a step belongs.
pub open spec fn stage_of(step: Step) -> Stage {
    match step {
        Step::Requesting | Step::Storing => Stage::Fetching,
        Step::Decoding | Step::Collecting => Stage::Extracting,
        Step::Judging | Step::Pausing => Stage::Moderating,
        Step::Done => Stage::Done,
        Step::Failed => Stage::Failed,
    }
}

/// A frame with the verdict on it.
#[derive(Debug)]
pub struct FrameResult {
    pub frame: Frame,
    pub moderation: ModerationVerdict,
}

/// What a [`FrameResult`] holds: the path of the frame, and the verdict.
pub struct FrameResultView {
    pub frame: Seq<char>,
    pub moderation: VerdictView,
}

impl View for FrameResult {
    type V = FrameResultView;

    open spec fn view(&self) -> FrameResultView {
        FrameResultView { frame: self.frame@, moderation: self.moderation@ }
    }
}

impl FrameResult {
    /// The status under which every frame is reported.
    pub fn status(&self) -> (r: &'static str)
        ensures
            r@ == "extracted"@,
    {
        "extracted"
    }
}

/// What each of `results` holds.
pub open spec fn results_of(results: Seq<FrameResult>) -> Seq<FrameResultView> {
    results.map_values(|r: FrameResult| r@)
}

/// The paths of the frames of `results`.
pub open spec fn result_paths(results: Seq<FrameResultView>) -> Seq<Seq<char>> {
    results.map_values(|r: FrameResultView| r.frame)
}

/// What the caller reports.
#[derive(Debug)]
pub enum Event {
    /// The source answered, with this status code and status line.
    Responded { status: u16, status_text: String },
    /// The source could not be reached.
    TransportFailed(String),
    /// The body was read and stored.
    Stored,
    /// The body could not be read.
    BodyUnreadable(String),
    /// The body could not be stored.
    StorageFailed(String),
    /// No directory for the frames could be made.
    WorkspaceFailed(String),
    /// The decoder could not be started.
    DecoderNotStarted(String),
    /// The decoder ended, with this exit code, if it had one, and this
    /// description of how it ended.
    DecoderExited { code: Option<i32>, status: String },
    /// The files in the directory of the frames, in the order in which they
    /// were found.
    Collected(Vec<String>),
    /// The verdict on the frame that was to be moderated.
    Judged(ModerationVerdict),
    /// The pause is over.
    Paused,
}

/// What an [`Event`] holds.
pub enum EventView {
    Responded { status: u16, status_text: Seq<char> },
    TransportFailed(Seq<char>),
    Stored,
    BodyUnreadable(Seq<char>),
    StorageFailed(Seq<char>),
    WorkspaceFailed(Seq<char>),
    DecoderNotStarted(Seq<char>),
    DecoderExited { code: Option<i32>, status: Seq<char> },
    Collected(Seq<Seq<char>>),
    Judged(VerdictView),
    Paused,
}

impl View for Event {
    type V = EventView;

    open spec fn view(&self) -> EventView {
        match self {
            Event::Responded { status, status_text } => EventView::Responded {
                status: *status,
                status_text: status_text@,
            },
            Event::TransportFailed(e) => EventView::TransportFailed(e@),
            Event::Stored => EventView::Stored,
            Event::BodyUnreadable(e) => EventView::BodyUnreadable(e@),
            Event::StorageFailed(e) => EventView::StorageFailed(e@),
            Event::WorkspaceFailed(e) => EventView::WorkspaceFailed(e@),
            Event::DecoderNotStarted(e) => EventView::DecoderNotStarted(e@),
            Event::DecoderExited { code, status } => EventView::DecoderExited {
                code: *code,
                status: status@,
            },
            Event::Collected(files) => EventView::Collected(texts_of(files@)),
            Event::Judged(verdict) => EventView::Judged(verdict@),
            Event::Paused => EventView::Paused,
        }
    }
}

/// What the caller is to do next.
#[derive(Debug)]
pub enum Action {
    /// Ask for the source at this URL and report the status of the answer.
    Request { url: String },
    /// Read the body of the answer into a file of the request's own.
    Store,
    /// Run the decoder on that file, into a fresh directory.
    Decode,
    /// List the files in that directory.
    Collect,
    /// Have this frame moderated, with retries, and report the verdict.
    Moderate { frame: String },
    /// Wait for so many milliseconds.
    Pause { millis: u64 },
    /// The request is done: take the outcome.
    Deliver,
    /// The request has failed: take the failure.
    Abort,
}

/// What an [`Action`] holds.
pub enum ActionView {
    Request { url: Seq<char> },
    Store,
    Decode,
    Collect,
    Moderate { frame: Seq<char> },
    Pause { millis: u64 },
    Deliver,
    Abort,
}

impl View for Action {
    type V = ActionView;

    open spec fn view(&self) -> ActionView {
        match self {
            Action::Request { url } => ActionView::Request { url: url@ },
            Action::Store => ActionView::Store,
            Action::Decode => ActionView::Decode,
            Action::Collect => ActionView::Collect,
            Action::Moderate { frame } => ActionView::Moderate { frame: frame@ },
            Action::Pause { millis } => ActionView::Pause { millis: *millis },
            Action::Deliver => ActionView::Deliver,
            Action::Abort => ActionView::Abort,
        }
    }
}

/// The pause after each verdict, in milliseconds.
pub const PAUSE_MS: u64 = 200;

/// The state of a request.
pub struct CoordinatorView {
    pub step: Step,
    /// The URL of the source.
    pub url: Seq<char>,
    /// The frames with a verdict, in their order.
    pub judged: Seq<FrameResultView>,
    /// The paths of the frames without one, in their order.
    pub waiting: Seq<Seq<char>>,
    /// Why the request failed, if it did.
    pub failure: Option<PipelineErrorView>,
}

impl CoordinatorView {
    /// The state is one that a request can be in: it holds a failure just
    /// when it has failed, frames only from moderation on, a waiting frame
    /// while a verdict is sought and none when done, and its frames, those
    /// with a verdict before those without, ascend by index.
    pub open spec fn wf(self) -> bool {
        &&& (self.step == Step::Failed) == (self.failure is Some)
        &&& self.step == Step::Judging ==> self.waiting.len() > 0
        &&& self.step == Step::Done ==> self.waiting.len() == 0
        &&& stage_of(self.step) != Stage::Moderating && self.step != Step::Done ==> self.judged.len()
            == 0 && self.waiting.len() == 0
        &&& sorted_by_index(result_paths(self.judged) + self.waiting)
    }

    /// The same state at another step.
    pub open spec fn at(self, step: Step) -> CoordinatorView {
        CoordinatorView {
            step,
            url: self.url,
            judged: self.judged,
            waiting: self.waiting,
            failure: self.failure,
        }
    }

    /// The state after the failure `error`: no frame is kept.
    pub open spec fn failed_with(self, error: PipelineErrorView) -> CoordinatorView {
        CoordinatorView {
            step: Step::Failed,
            url: self.url,
            judged: Seq::empty(),
            waiting: Seq::empty(),
            failure: Some(error),
        }
    }

    /// The state after the verdict on the first waiting frame.
    pub open spec fn judged_with(self, verdict: VerdictView) -> CoordinatorView {
        CoordinatorView {
            step: Step::Pausing,
            url: self.url,
            judged: self.judged.push(
                FrameResultView { frame: self.waiting[0], moderation: verdict },
            ),
            waiting: self.waiting.drop_first(),
            failure: self.failure,
        }
    }
}

/// The state in which a request for the source at `url` begins.
pub open spec fn initial(url: Seq<char>) -> CoordinatorView {
    CoordinatorView {
        step: Step::Requesting,
        url,
        judged: Seq::empty(),
        waiting: Seq::empty(),
        failure: None,
    }
}

/// The state of a request whose locator was refused with `error`.
pub open spec fn refused(error: Seq<char>) -> CoordinatorView {
    CoordinatorView {
        step: Step::Failed,
        url: Seq::empty(),
        judged: Seq::empty(),
        waiting: Seq::empty(),
        failure: Some(invalid_locator(error)),
    }
}

/// A status code of the class 2xx.
pub open spec fn is_success(status: u16) -> bool {
    200 <= status < 300
}

/// `post` is the state that follows `pre` on `event`.
pub open spec fn follows(pre: CoordinatorView, event: EventView, post: CoordinatorView) -> bool {
    match (pre.step, event) {
        (Step::Requesting, EventView::Responded { status, status_text }) => post == if is_success(
            status,
        ) {
            pre.at(Step::Storing)
        } else {
            pre.failed_with(
                PipelineErrorView::FetchFailure(
                    "Failed to download URL. HTTP Status: "@ + status_text,
                ),
            )
        },
        (Step::Requesting, EventView::TransportFailed(e)) => post == pre.failed_with(
            PipelineErrorView::FetchFailure("Error downloading URL: "@ + e),
        ),
        (Step::Storing, EventView::Stored) => post == pre.at(Step::Decoding),
        (Step::Storing, EventView::BodyUnreadable(e)) => post == pre.failed_with(
            PipelineErrorView::FetchFailure("Error reading response: "@ + e),
        ),
        (Step::Storing, EventView::StorageFailed(e)) => post == pre.failed_with(
            PipelineErrorView::FetchFailure("Error writing to temp file: "@ + e),
        ),
        (Step::Decoding, EventView::WorkspaceFailed(e)) => post == pre.failed_with(
            PipelineErrorView::ExtractionFailure("Error creating temp dir: "@ + e),
        ),
        (Step::Decoding, EventView::DecoderNotStarted(e)) => post == pre.failed_with(
            PipelineErrorView::ExtractionFailure("Failed to execute ffmpeg: "@ + e),
        ),
        (Step::Decoding, EventView::DecoderExited { code, status }) => post == if code == Some(
            0i32,
        ) {
            pre.at(Step::Collecting)
        } else {
            pre.failed_with(
                PipelineErrorView::ExtractionFailure("ffmpeg failed with status: "@ + status),
            )
        },
        (Step::Collecting, EventView::Collected(files)) => {
            &&& post.step == if frame_files(files).len() == 0 {
                Step::Done
            } else {
                Step::Judging
            }
            &&& post.url == pre.url
            &&& post.judged == Seq::<FrameResultView>::empty()
            &&& post.waiting.len() == frame_files(files).len()
            &&& is_ordering_of(post.waiting, frame_files(files))
            &&& post.failure == pre.failure
        },
        (Step::Judging, EventView::Judged(verdict)) => post == pre.judged_with(verdict),
        (Step::Pausing, EventView::Paused) => post == pre.at(
            if pre.waiting.len() > 0 {
                Step::Judging
            } else {
                Step::Done
            },
        ),
        _ => post == pre,
    }
}

/// The action for which a state waits.
pub open spec fn pending(state: CoordinatorView) -> ActionView {
    match state.step {
        Step::Requesting => ActionView::Request { url: state.url },
        Step::Storing => ActionView::Store,
        Step::Decoding => ActionView::Decode,
        Step::Collecting => ActionView::Collect,
        Step::Judging => ActionView::Moderate { frame: state.waiting[0] },
        Step::Pausing => ActionView::Pause { millis: PAUSE_MS },
        Step::Done => ActionView::Deliver,
        Step::Failed => ActionView::Abort,
    }
}

/// Every step leads from one possible state to another: in particular the
/// frames stay in ascending order from extraction to the end.
pub proof fn steps_keep_order(pre: CoordinatorView, event: EventView, post: CoordinatorView)
    requires
        pre.wf(),
        follows(pre, event, post),
    ensures
        post.wf(),
        stage_of(pre.step) == Stage::Moderating ==> result_paths(post.judged) + post.waiting
            == result_paths(pre.judged) + pre.waiting,
{
    let nothing = Seq::<Seq<char>>::empty();
    assert(result_paths(Seq::<FrameResultView>::empty()) =~= nothing);
    assert(nothing + nothing =~= nothing);
    match (pre.step, event) {
        (Step::Collecting, EventView::Collected(files)) => {
            assert(result_paths(post.judged) + post.waiting =~= post.waiting);
        },
        (Step::Judging, EventView::Judged(verdict)) => {
            assert(result_paths(post.judged) + post.waiting =~= result_paths(pre.judged)
                + pre.waiting);
        },
        _ => {},
    }
}

/// A request that has failed stays failed, and one that is done stays done,
/// whatever is reported.
pub proof fn end_states_absorb(pre: CoordinatorView, event: EventView, post: CoordinatorView)
    requires
        follows(pre, event, post),
        pre.step == Step::Failed || pre.step == Step::Done,
    ensures
        post == pre,
{
}

/// A request fails only while fetching or extracting: no verdict and no
/// pause leads to failure.
pub proof fn only_fetching_and_extracting_fail(
    pre: CoordinatorView,
    event: EventView,
    post: CoordinatorView,
)
    requires
        pre.wf(),
        follows(pre, event, post),
        post.step == Step::Failed,
        pre.step != Step::Failed,
    ensures
        stage_of(pre.step) == Stage::Fetching || stage_of(pre.step) == Stage::Extracting,
        post.judged.len() == 0,
        post.waiting.len() == 0,
{
}

/// Where the decoder leaves no frame, the request is done at once, with no
/// frame and no failure.
pub proof fn no_frames_is_success(pre: CoordinatorView, files: Seq<Seq<char>>, post: CoordinatorView)
    requires
        pre.wf(),
        pre.step == Step::Collecting,
        frame_files(files).len() == 0,
        follows(pre, EventView::Collected(files), post),
    ensures
        post.step == Step::Done,
        result_of(post) matches Some(Ok(outcome)) && outcome.frames.len() == 0,
{
}

/// A decoder that ends with anything but the exit code 0 fails the request
/// as an extraction failure, and no frame is kept.
pub proof fn decoder_failure_is_fatal(
    pre: CoordinatorView,
    code: Option<i32>,
    status: Seq<char>,
    post: CoordinatorView,
)
    requires
        pre.step == Step::Decoding,
        code != Some(0i32),
        follows(pre, EventView::DecoderExited { code, status }, post),
    ensures
        post.step == Step::Failed,
        post.failure matches Some(PipelineErrorView::ExtractionFailure(_)),
        post.judged.len() == 0 && post.waiting.len() == 0,
        result_of(post) matches Some(Err(PipelineErrorView::ExtractionFailure(_))),
{
}

/// A request whose locator is refused does not begin: it has failed with
/// invalid input, waits for no fetch, and no event moves it.
pub proof fn refused_locator_fetches_nothing(error: Seq<char>, event: EventView, post: CoordinatorView)
    requires
        follows(refused(error), event, post),
    ensures
        refused(error).wf(),
        pending(refused(error)) == ActionView::Abort,
        result_of(refused(error)) == Some(
            Err::<PipelineOutcomeView, PipelineErrorView>(invalid_locator(error)),
        ),
        post == refused(error),
{
    assert(result_paths(Seq::<FrameResultView>::empty()) + Seq::<Seq<char>>::empty()
        =~= Seq::<Seq<char>>::empty());
}

/// What a request came to: its frames, ascending by index, each with its
/// verdict, and a summary.
#[derive(Debug)]
pub struct PipelineOutcome {
    pub frames: Vec<FrameResult>,
    pub message: String,
}

/// What a [`PipelineOutcome`] holds.
pub struct PipelineOutcomeView {
    pub frames: Seq<FrameResultView>,
    pub message: Seq<char>,
}

impl View for PipelineOutcome {
    type V = PipelineOutcomeView;

    open spec fn view(&self) -> PipelineOutcomeView {
        PipelineOutcomeView { frames: results_of(self.frames@), message: self.message@ }
    }
}

/// What the failure of a request holds, if there is one.
pub open spec fn failure_of(failure: Option<PipelineError>) -> Option<PipelineErrorView> {
    match failure {
        Some(error) => Some(error@),
        None => None,
    }
}

/// What a finished request hands over: nothing while it runs, its frames
/// once it is done, its failure once it has failed.
pub open spec fn result_of(state: CoordinatorView) -> Option<
    Result<PipelineOutcomeView, PipelineErrorView>,
> {
    match state.step {
        Step::Done => Some(
            Ok(
                PipelineOutcomeView {
                    frames: state.judged,
                    message: "File processed successfully - all frames moderated sequentially"@,
                },
            ),
        ),
        Step::Failed => Some(Err(state.failure->0)),
        _ => None,
    }
}

/// What a handed-over result holds.
pub open spec fn handed_over(result: Option<Result<PipelineOutcome, PipelineError>>) -> Option<
    Result<PipelineOutcomeView, PipelineErrorView>,
> {
    match result {
        Some(Ok(outcome)) => Some(Ok(outcome@)),
        Some(Err(error)) => Some(Err(error@)),
        None => None,
    }
}

/// The coordinator of one request.
#[derive(Debug)]
pub struct Coordinator {
    step: Step,
    url: String,
    judged: Vec<FrameResult>,
    waiting: Vec<Frame>,
    failure: Option<PipelineError>,
}

impl View for Coordinator {
    type V = CoordinatorView;

    closed spec fn view(&self) -> CoordinatorView {
        CoordinatorView {
            step: self.step,
            url: self.url@,
            judged: results_of(self.judged@),
            waiting: paths_of(self.waiting@),
            failure: failure_of(self.failure),
        }
    }
}

impl Coordinator {
    #[verifier::type_invariant]
    spec fn is_wf(self) -> bool {
        self@.wf()
    }

    /// Begins a request for the source that `locator` names. A locator that
    /// is no absolute URL fails the request at once, and nothing is
    /// fetched.
    pub fn start(locator: &str) -> (r: (Coordinator, Action))
        ensures
            r.0@ == match parsed_url(locator@) {
                Ok(url) => initial(url),
                Err(error) => refused(error),
            },
            r.0@.wf(),
            r.1@ == pending(r.0@),
    {
        match SourceLocator::parse(locator) {
            Ok(source) => Coordinator::begin(&source),
            Err(error) => {
                let coordinator = Coordinator {
                    step: Step::Failed,
                    url: String::new(),
                    judged: Vec::new(),
                    waiting: Vec::new(),
                    failure: Some(error),
                };
                assert(coordinator@ =~= refused(parsed_url(locator@)->Err_0)) by {
                    assert(results_of(coordinator.judged@) =~= Seq::<FrameResultView>::empty());
                    assert(paths_of(coordinator.waiting@) =~= Seq::<Seq<char>>::empty());
                }
                (coordinator, Action::Abort)
            },
        }
    }

    /// Begins a request for the source at `source`.
    pub fn begin(source: &SourceLocator) -> (r: (Coordinator, Action))
        ensures
            r.0@ == initial(source@),
            r.0@.wf(),
            r.1@ == pending(r.0@),
    {
        let judged: Vec<FrameResult> = Vec::new();
        let waiting: Vec<Frame> = Vec::new();
        proof {
            assert(results_of(judged@) =~= Seq::<FrameResultView>::empty());
            assert(paths_of(waiting@) =~= Seq::<Seq<char>>::empty());
            assert(result_paths(results_of(judged@)) + paths_of(waiting@) =~= Seq::<
                Seq<char>,
            >::empty());
        }
        let coordinator = Coordinator {
            step: Step::Requesting,
            url: String::from_str(source.as_str()),
            judged,
            waiting,
            failure: None,
        };
        (coordinator, Action::Request { url: String::from_str(source.as_str()) })
    }

    /// The state after a failure: no frame is kept.
    fn fail(url: String, error: PipelineError) -> (r: Coordinator)
        ensures
            r@.step == Step::Failed,
            r@.url == url@,
            r@.judged == Seq::<FrameResultView>::empty(),
            r@.waiting == Seq::<Seq<char>>::empty(),
            r@.failure == Some(error@),
    {
        let judged: Vec<FrameResult> = Vec::new();
        let waiting: Vec<Frame> = Vec::new();
        proof {
            assert(results_of(judged@) =~= Seq::<FrameResultView>::empty());
            assert(paths_of(waiting@) =~= Seq::<Seq<char>>::empty());
            assert(result_paths(results_of(judged@)) + paths_of(waiting@) =~= Seq::<
                Seq<char>,
            >::empty());
        }
        Coordinator { step: Step::Failed, url, judged, waiting, failure: Some(error) }
    }

    /// The stage of the request.
    pub fn stage(&self) -> (r: Stage)
        ensures
            r == stage_of(self@.step),
    {
        match self.step {
            Step::Requesting | Step::Storing => Stage::Fetching,
            Step::Decoding | Step::Collecting => Stage::Extracting,
            Step::Judging | Step::Pausing => Stage::Moderating,
            Step::Done => Stage::Done,
            Step::Failed => Stage::Failed,
        }
    }

    /// The frames that wait for a verdict, in their order.
    pub fn waiting(&self) -> (r: &Vec<Frame>)
        ensures
            paths_of(r@) == self@.waiting,
    {
        &self.waiting
    }

    /// The action for which the request waits.
    pub fn pending_action(&self) -> (r: Action)
        ensures
            r@ == pending(self@),
    {
        proof {
            use_type_invariant(self);
        }
        match self.step {
            Step::Requesting => Action::Request { url: self.url.clone() },
            Step::Storing => Action::Store,
            Step::Decoding => Action::Decode,
            Step::Collecting => Action::Collect,
            Step::Judging => {
                assert(paths_of(self.waiting@).len() == self.waiting@.len());
                Action::Moderate { frame: String::from_str(self.waiting[0].path()) }
            },
            Step::Pausing => Action::Pause { millis: PAUSE_MS },
            Step::Done => Action::Deliver,
            Step::Failed => Action::Abort,
        }
    }

    /// Takes in what the caller reports and names the next action.
    pub fn advance(self, event: Event) -> (r: (Coordinator, Action))
        ensures
            follows(self@, event@, r.0@),
            r.0@.wf(),
            r.1@ == pending(r.0@),
    {
        proof {
            use_type_invariant(&self);
        }
        let ghost pre = self@;
        let Coordinator { step, url, judged, waiting, failure } = self;
        let next: Coordinator = match (step, event) {
            (Step::Requesting, Event::Responded { status, status_text }) => {
                if 200 <= status && status < 300 {
                    Coordinator { step: Step::Storing, url, judged, waiting, failure }
                } else {
                    Coordinator::fail(
                        url,
                        PipelineError::FetchFailure(
                            String::from_str("Failed to download URL. HTTP Status: ").concat(
                                status_text.as_str(),
                            ),
                        ),
                    )
                }
            },
            (Step::Requesting, Event::TransportFailed(e)) => Coordinator::fail(
                url,
                PipelineError::FetchFailure(
                    String::from_str("Error downloading URL: ").concat(e.as_str()),
                ),
            ),
            (Step::Storing, Event::Stored) => Coordinator {
                step: Step::Decoding,
                url,
                judged,
                waiting,
                failure,
            },
            (Step::Storing, Event::BodyUnreadable(e)) => Coordinator::fail(
                url,
                PipelineError::FetchFailure(
                    String::from_str("Error reading response: ").concat(e.as_str()),
                ),
            ),
            (Step::Storing, Event::StorageFailed(e)) => Coordinator::fail(
                url,
                PipelineError::FetchFailure(
                    String::from_str("Error writing to temp file: ").concat(e.as_str()),
                ),
            ),
            (Step::Decoding, Event::WorkspaceFailed(e)) => Coordinator::fail(
                url,
                PipelineError::ExtractionFailure(
                    String::from_str("Error creating temp dir: ").concat(e.as_str()),
                ),
            ),
            (Step::Decoding, Event::DecoderNotStarted(e)) => Coordinator::fail(
                url,
                PipelineError::ExtractionFailure(
                    String::from_str("Failed to execute ffmpeg: ").concat(e.as_str()),
                ),
            ),
            (Step::Decoding, Event::DecoderExited { code, status }) => {
                let succeeded: bool = match code {
                    Some(c) => c == 0,
                    None => false,
                };
                if succeeded {
                    Coordinator { step: Step::Collecting, url, judged, waiting, failure }
                } else {
                    Coordinator::fail(
                        url,
                        PipelineError::ExtractionFailure(
                            String::from_str("ffmpeg failed with status: ").concat(
                                status.as_str(),
                            ),
                        ),
                    )
                }
            },
            (Step::Collecting, Event::Collected(files)) => {
                let frames: Vec<Frame> = ordered_frames(&files);
                let none: Vec<FrameResult> = Vec::new();
                proof {
                    assert(results_of(none@) =~= Seq::<FrameResultView>::empty());
                    assert(result_paths(results_of(none@)) + paths_of(frames@) =~= paths_of(
                        frames@,
                    ));
                    assert(paths_of(frames@).len() == frames@.len());
                }
                let step: Step = if frames.len() == 0 {
                    Step::Done
                } else {
                    Step::Judging
                };
                Coordinator { step, url, judged: none, waiting: frames, failure }
            },
            (Step::Judging, Event::Judged(verdict)) => {
                let mut judged = judged;
                let mut waiting = waiting;
                let ghost before = result_paths(results_of(judged@)) + paths_of(waiting@);
                assert(paths_of(waiting@).len() == waiting@.len());
                let frame: Frame = waiting.remove(0);
                judged.push(FrameResult { frame, moderation: verdict });
                proof {
                    assert(results_of(judged@) =~= pre.judged_with(verdict@).judged);
                    assert(paths_of(waiting@) =~= pre.judged_with(verdict@).waiting);
                    assert(result_paths(results_of(judged@)) + paths_of(waiting@) =~= before);
                }
                Coordinator { step: Step::Pausing, url, judged, waiting, failure }
            },
            (Step::Pausing, Event::Paused) => {
                assert(paths_of(waiting@).len() == waiting@.len());
                let step: Step = if waiting.len() > 0 {
                    Step::Judging
                } else {
                    Step::Done
                };
                Coordinator { step, url, judged, waiting, failure }
            },
            (step, _) => Coordinator { step, url, judged, waiting, failure },
        };
        let action: Action = next.pending_action();
        (next, action)
    }

    /// Ends the request and hands over what it came to: the frames in their
    /// order, each with its verdict, once the request is done; the failure
    /// once it has failed; nothing while it still runs.
    pub fn finish(self) -> (r: Option<Result<PipelineOutcome, PipelineError>>)
        ensures
            handed_over(r) == result_of(self@),
            self@.wf(),
            r matches Some(Ok(outcome)) ==> sorted_by_index(result_paths(outcome@.frames)),
    {
        proof {
            use_type_invariant(&self);
        }
        let Coordinator { step, url, judged, waiting, failure } = self;
        match step {
            Step::Done => {
                proof {
                    assert(paths_of(waiting@) =~= Seq::<Seq<char>>::empty());
                    assert(result_paths(results_of(judged@)) + paths_of(waiting@)
                        =~= result_paths(results_of(judged@)));
                }
                Some(
                    Ok(
                        PipelineOutcome {
                            frames: judged,
                            message: String::from_str(
                                "File processed successfully - all frames moderated sequentially",
                            ),
                        },
                    ),
                )
            },
            Step::Failed => match failure {
                Some(error) => Some(Err(error)),
                None => None,
            },
            _ => None,
        }
    }
}

} // verus!
