//! The dispatcher: for every invocation and every state of the process, what
//! is done with the files and with the window.
//!
//! A [`Coordinator`] holds what the process has to remember between
//! invocations. Its methods change that state and return the effects that the
//! caller has to perform: they open no window and start no work themselves.
//! The caller keeps the coordinator behind one lock and calls in with the lock
//! held, so that reading the state and acting on it are one step.

use vstd::prelude::*;
use crate::batch::{BatchCounts, BatchState, FinalizerTicket, Outcome};
use crate::invocation::{Invocation, InvocationView};
use crate::lifecycle::{
    batch_message_text,
    batch_surface,
    exit_after_batch,
    is_silent_launch,
    notify_batch_result,
    request_exit,
    silent_launch,
    ExitRequest,
    Notice,
};
use crate::settings::NotifyMode;
use crate::text::texts;

verus! {

/// What is known of the main window when an invocation arrives.
#[derive(Debug, Clone, Copy, PartialEq, Eq, Structural)]
pub struct WindowStatus {
    /// The window has been created.
    pub exists: bool,
    /// The window is on the screen.
    pub visible: bool,
}

/// Something the caller has to do after an invocation was routed.
#[derive(Debug, Clone, PartialEq, Eq)]
pub enum Effect {
    /// Take the process out of the dock and the task switcher.
    EnterBackground,
    /// Start one unit of work that compresses this file and reports how it
    /// ended.
    StartCompression(String),
    /// Tell the interface to list these files.
    AddFiles(Vec<String>),
    /// Tell the interface to list these files and to compress them.
    CompressFiles(Vec<String>),
    /// Restore, show and focus the main window.
    ShowWindow,
}

/// An effect over character sequences.
pub enum EffectView {
    EnterBackground,
    StartCompression(Seq<char>),
    AddFiles(Seq<Seq<char>>),
    CompressFiles(Seq<Seq<char>>),
    ShowWindow,
}

impl View for Effect {
    type V = EffectView;

    open spec fn view(&self) -> EffectView {
        match *self {
            Effect::EnterBackground => EffectView::EnterBackground,
            Effect::StartCompression(path) => EffectView::StartCompression(path@),
            Effect::AddFiles(paths) => EffectView::AddFiles(texts(paths@)),
            Effect::CompressFiles(paths) => EffectView::CompressFiles(texts(paths@)),
            Effect::ShowWindow => EffectView::ShowWindow,
        }
    }
}

/// A list of effects over character sequences.
pub open spec fn effects_view(effects: Seq<Effect>) -> Seq<EffectView> {
    effects.map_values(|e: Effect| e@)
}

/// The files that wait for the interface, over character sequences.
pub open spec fn queue_view(queue: Seq<(String, bool)>) -> Seq<(Seq<char>, bool)> {
    queue.map_values(|entry: (String, bool)| (entry.0@, entry.1))
}

/// The window comes to the front if there is one.
pub open spec fn show_window(window: WindowStatus) -> Seq<EffectView> {
    if window.exists {
        seq![EffectView::ShowWindow]
    } else {
        Seq::empty()
    }
}

/// One unit of work per file, in the order of the files.
pub open spec fn start_each(files: Seq<Seq<char>>) -> Seq<EffectView> {
    files.map_values(|file: Seq<char>| EffectView::StartCompression(file))
}

/// The files as entries of the startup queue.
pub open spec fn queued(files: Seq<Seq<char>>, auto_compress: bool) -> Seq<(Seq<char>, bool)> {
    files.map_values(|file: Seq<char>| (file, auto_compress))
}

/// What a coordinator remembers.
pub struct CoordinatorView {
    /// The interface has reported that it is ready. Never goes back to false.
    pub frontend_ready: bool,
    /// The process runs without a window. Never goes back to false.
    pub background: bool,
    /// Files that arrived before the interface was ready, each with the
    /// answer to "compress at once?".
    pub startup_queue: Seq<(Seq<char>, bool)>,
    /// The counters of the batch.
    pub batch: BatchCounts,
}

/// What the finalizer of a batch has to do when its grace period is over.
#[derive(Debug, Clone, PartialEq, Eq)]
pub struct Finalization {
    /// What to show, if anything.
    pub notice: Option<Notice>,
    /// Whether and how to end the process after that.
    pub exit: Option<ExitRequest>,
}

impl CoordinatorView {
    /// The state of a process that has just started.
    pub open spec fn initial() -> CoordinatorView {
        CoordinatorView {
            frontend_ready: false,
            background: false,
            startup_queue: Seq::empty(),
            batch: BatchCounts::idle(),
        }
    }

    /// Whether the batch has room for the files that `invocation` would
    /// enqueue.
    pub open spec fn accepts(self, invocation: InvocationView) -> bool {
        invocation is FilesToCompressSilently ==> self.batch.has_room_for(
            invocation.files().len(),
        )
    }

    /// The routing table: the state after `invocation`, and the effects in the
    /// order in which they are to be performed. An invocation that names no
    /// file is treated like an empty one.
    pub open spec fn route(self, invocation: InvocationView, window: WindowStatus) -> (
        CoordinatorView,
        Seq<EffectView>,
    ) {
        let files = invocation.files();
        if files.len() == 0 {
            (self, show_window(window))
        } else {
            match invocation {
                InvocationView::FilesToCompressSilently(_) => {
                    let silent = silent_launch(self.frontend_ready, window.visible);
                    (
                        CoordinatorView {
                            background: self.background || silent,
                            batch: self.batch.enqueue_many(files.len()),
                            ..self
                        },
                        if silent {
                            seq![EffectView::EnterBackground] + start_each(files)
                        } else {
                            start_each(files)
                        },
                    )
                },
                InvocationView::FilesToCompressForeground(_) => if self.frontend_ready {
                    (self, seq![EffectView::CompressFiles(files)] + show_window(window))
                } else {
                    (
                        CoordinatorView {
                            startup_queue: self.startup_queue + queued(files, true),
                            ..self
                        },
                        show_window(window),
                    )
                },
                InvocationView::FilesToOpen(_) => if self.frontend_ready {
                    (self, seq![EffectView::AddFiles(files)] + show_window(window))
                } else {
                    (
                        CoordinatorView {
                            startup_queue: self.startup_queue + queued(files, false),
                            ..self
                        },
                        Seq::empty(),
                    )
                },
                InvocationView::Empty => (self, show_window(window)),
            }
        }
    }

    /// The state after the interface has reported that it is ready and has
    /// taken the files that waited for it.
    pub open spec fn ready(self) -> CoordinatorView {
        CoordinatorView { frontend_ready: true, startup_queue: Seq::empty(), ..self }
    }

    /// The state after one file in flight has finished.
    pub open spec fn file_done(self, outcome: Outcome) -> CoordinatorView {
        CoordinatorView { batch: self.batch.finish(outcome), ..self }
    }

    /// Once the interface is ready nothing waits for it any more.
    pub open spec fn wf(self) -> bool {
        self.frontend_ready ==> self.startup_queue.len() == 0
    }
}

/// The state of the process between invocations.
pub struct Coordinator {
    frontend_ready: bool,
    background: bool,
    startup_queue: Vec<(String, bool)>,
    batch: BatchState,
}

impl View for Coordinator {
    type V = CoordinatorView;

    closed spec fn view(&self) -> CoordinatorView {
        CoordinatorView {
            frontend_ready: self.frontend_ready,
            background: self.background,
            startup_queue: queue_view(self.startup_queue@),
            batch: self.batch@,
        }
    }
}

fn push_window(effects: &mut Vec<Effect>, window: WindowStatus)
    ensures
        effects_view(final(effects)@) == effects_view(old(effects)@) + show_window(window),
{
    if window.exists {
        effects.push(Effect::ShowWindow);
    }
    assert(effects_view(effects@) =~= effects_view(old(effects)@) + show_window(window));
}

fn push_starts(effects: &mut Vec<Effect>, files: &Vec<String>)
    ensures
        effects_view(final(effects)@) == effects_view(old(effects)@) + start_each(texts(files@)),
{
    let mut i: usize = 0;
    while i < files.len()
        invariant
            i <= files.len(),
            effects.len() == old(effects).len() + i,
            forall|j: int| 0 <= j < old(effects).len() ==> effects[j] == old(effects)[j],
            forall|k: int|
                0 <= k < i ==> (#[trigger] effects[old(effects).len() + k])@
                    == EffectView::StartCompression(files[k]@),
        decreases files.len() - i,
    {
        effects.push(Effect::StartCompression(files[i].clone()));
        i += 1;
    }
    assert(effects_view(effects@) =~= effects_view(old(effects)@) + start_each(texts(files@)))
        by {
        assert forall|j: int| 0 <= j < effects.len() implies effects_view(effects@)[j] == (
        effects_view(old(effects)@) + start_each(texts(files@)))[j] by {
            if j >= old(effects).len() {
                let k = j - old(effects).len();
                assert(effects[old(effects).len() + k]@ == EffectView::StartCompression(
                    files[k]@,
                ));
            }
        }
    }
}

fn push_queued(queue: &mut Vec<(String, bool)>, files: &Vec<String>, auto_compress: bool)
    ensures
        queue_view(final(queue)@) == queue_view(old(queue)@) + queued(
            texts(files@),
            auto_compress,
        ),
{
    let mut i: usize = 0;
    while i < files.len()
        invariant
            i <= files.len(),
            queue.len() == old(queue).len() + i,
            forall|j: int| 0 <= j < old(queue).len() ==> queue[j] == old(queue)[j],
            forall|k: int|
                0 <= k < i ==> (#[trigger] queue[old(queue).len() + k]).0@ == files[k]@
                    && queue[old(queue).len() + k].1 == auto_compress,
        decreases files.len() - i,
    {
        queue.push((files[i].clone(), auto_compress));
        i += 1;
    }
    assert(queue_view(queue@) =~= queue_view(old(queue)@) + queued(texts(files@), auto_compress))
        by {
        assert forall|j: int| 0 <= j < queue.len() implies queue_view(queue@)[j] == (queue_view(
            old(queue)@,
        ) + queued(texts(files@), auto_compress))[j] by {
            if j >= old(queue).len() {
                let k = j - old(queue).len();
                assert(queue[old(queue).len() + k].0@ == files[k]@);
            }
        }
    }
}

fn enqueue_files(batch: &mut BatchState, n: usize)
    requires
        old(batch)@.has_room_for(n as nat),
    ensures
        final(batch)@ == old(batch)@.enqueue_many(n as nat),
    no_unwind
{
    let mut i: usize = 0;
    while i < n
        invariant
            i <= n,
            batch@ == old(batch)@.enqueue_many(i as nat),
            batch@.has_room_for((n - i) as nat),
        decreases n - i,
    {
        batch.enqueue_one();
        i += 1;
    }
}

impl Coordinator {
    #[verifier::type_invariant]
    spec fn drained_once(self) -> bool {
        self.frontend_ready ==> self.startup_queue@.len() == 0
    }

    /// The coordinator of a process that has just started.
    pub fn new() -> (coordinator: Coordinator)
        ensures
            coordinator@ == CoordinatorView::initial(),
    {
        let coordinator = Coordinator {
            frontend_ready: false,
            background: false,
            startup_queue: Vec::new(),
            batch: BatchState::new(),
        };
        assert(coordinator@.startup_queue =~= Seq::empty());
        coordinator
    }

    /// Whether the interface has reported that it is ready.
    pub fn is_frontend_ready(&self) -> (ready: bool)
        ensures
            ready == self@.frontend_ready,
            self@.wf(),
    {
        proof {
            use_type_invariant(self);
        }
        self.frontend_ready
    }

    /// Whether the process runs in the background.
    pub fn is_background(&self) -> (background: bool)
        ensures
            background == self@.background,
    {
        self.background
    }

    /// The number of files in flight.
    pub fn pending(&self) -> (n: u64)
        ensures
            n == self@.batch.pending,
    {
        self.batch.pending()
    }

    /// Whether [`Coordinator::handle`] can take `invocation` now.
    pub fn accepts(&self, invocation: &Invocation) -> (ok: bool)
        ensures
            ok == self@.accepts(invocation@),
    {
        match invocation {
            Invocation::FilesToCompressSilently(files) => self.batch.has_room_for(files.len()),
            _ => true,
        }
    }

    /// Puts the process into background mode, for good. Only a silent launch
    /// does that: the interface has never been ready and no window shows.
    pub fn enter_background_mode(&mut self, window: WindowStatus)
        requires
            silent_launch(old(self)@.frontend_ready, window.visible),
        ensures
            final(self)@ == (CoordinatorView { background: true, ..old(self)@ }),
    {
        proof {
            use_type_invariant(&*self);
        }
        self.background = true;
    }

    /// Whether the process is to end now: it runs in the background and
    /// nothing is in flight. The caller asks this with the lock held, at the
    /// moment of the exit, so that no invocation is routed in between.
    pub fn exit_is_due(&self) -> (due: bool)
        ensures
            due == (self@.background && self@.batch.pending == 0),
    {
        self.background && self.batch.pending() == 0
    }

    /// Whether the window may be shown when the interface asks for it: never
    /// in background mode.
    pub fn may_show_window(&self) -> (allowed: bool)
        ensures
            allowed == !self@.background,
    {
        !self.background
    }

    fn queue_files(&mut self, files: &Vec<String>, auto_compress: bool)
        requires
            !old(self)@.frontend_ready,
        ensures
            final(self)@ == (CoordinatorView {
                startup_queue: old(self)@.startup_queue + queued(texts(files@), auto_compress),
                ..old(self)@
            }),
    {
        let mut queue: Vec<(String, bool)> = Vec::new();
        std::mem::swap(&mut self.startup_queue, &mut queue);
        push_queued(&mut queue, files, auto_compress);
        std::mem::swap(&mut self.startup_queue, &mut queue);
    }

    /// Takes `files` into the batch: each of them counts as in flight from
    /// now on, and the caller starts one unit of work per file, which
    /// compresses the file off the dispatch path and reports how it ended
    /// through [`Coordinator::on_file_done`]. If nothing was in flight, the
    /// files start a new batch.
    pub fn enqueue(&mut self, files: &Vec<String>) -> (effects: Vec<Effect>)
        requires
            old(self)@.batch.has_room_for(files@.len()),
        ensures
            final(self)@ == (CoordinatorView {
                batch: old(self)@.batch.enqueue_many(files@.len()),
                ..old(self)@
            }),
            effects_view(effects@) == start_each(texts(files@)),
    {
        proof {
            use_type_invariant(&*self);
        }
        let mut effects: Vec<Effect> = Vec::new();
        assert(effects_view(effects@) =~= Seq::empty());
        enqueue_files(&mut self.batch, files.len());
        push_starts(&mut effects, files);
        assert(effects_view(effects@) =~= start_each(texts(files@)));
        effects
    }

    /// Routes one invocation. The state changes and the effects are those of
    /// [`CoordinatorView::route`].
    pub fn handle(&mut self, invocation: Invocation, window: WindowStatus) -> (effects: Vec<
        Effect,
    >)
        requires
            old(self)@.accepts(invocation@),
        ensures
            (final(self)@, effects_view(effects@)) == old(self)@.route(invocation@, window),
    {
        proof {
            use_type_invariant(&*self);
        }
        let mut effects: Vec<Effect> = Vec::new();
        assert(effects_view(effects@) =~= Seq::empty());
        match invocation {
            Invocation::FilesToCompressSilently(files) => {
                if files.len() == 0 {
                    push_window(&mut effects, window);
                } else {
                    if is_silent_launch(self.frontend_ready, window.visible) {
                        self.enter_background_mode(window);
                        effects.push(Effect::EnterBackground);
                        assert(effects_view(effects@) =~= seq![EffectView::EnterBackground]);
                    }
                    let mut starts = self.enqueue(&files);
                    let ghost before = effects_view(effects@);
                    effects.append(&mut starts);
                    assert(effects_view(effects@) =~= before + start_each(texts(files@)));
                }
            },
            Invocation::FilesToCompressForeground(files) => {
                if files.len() == 0 {
                    push_window(&mut effects, window);
                } else if self.frontend_ready {
                    effects.push(Effect::CompressFiles(files));
                    assert(effects_view(effects@) =~= seq![
                        EffectView::CompressFiles(texts(files@)),
                    ]);
                    push_window(&mut effects, window);
                } else {
                    self.queue_files(&files, true);
                    push_window(&mut effects, window);
                }
            },
            Invocation::FilesToOpen(files) => {
                if files.len() == 0 {
                    push_window(&mut effects, window);
                } else if self.frontend_ready {
                    effects.push(Effect::AddFiles(files));
                    assert(effects_view(effects@) =~= seq![EffectView::AddFiles(texts(files@))]);
                    push_window(&mut effects, window);
                } else {
                    self.queue_files(&files, false);
                }
            },
            Invocation::Empty => {
                push_window(&mut effects, window);
            },
        }
        effects
    }

    /// The interface reports that it is ready and takes the files that waited
    /// for it. From now on files go to the interface directly, and the queue
    /// stays empty.
    pub fn frontend_ready(&mut self) -> (files: Vec<(String, bool)>)
        ensures
            final(self)@ == old(self)@.ready(),
            queue_view(files@) == old(self)@.startup_queue,
    {
        proof {
            use_type_invariant(&*self);
        }
        let mut files: Vec<(String, bool)> = Vec::new();
        std::mem::swap(&mut self.startup_queue, &mut files);
        self.frontend_ready = true;
        assert(queue_view(self.startup_queue@) =~= Seq::empty());
        files
    }

    /// Records how one file in flight ended; see [`BatchState::file_done`].
    pub fn on_file_done(&mut self, outcome: Outcome) -> (ticket: Option<FinalizerTicket>)
        requires
            old(self)@.batch.pending > 0,
        ensures
            final(self)@ == old(self)@.file_done(outcome),
            ticket is Some <==> old(self)@.batch.pending == 1,
            ticket is Some ==> ticket->0.files() == old(self)@.batch.size(),
    {
        proof {
            use_type_invariant(&*self);
        }
        self.batch.file_done(outcome)
    }

    /// The finalizer's second look, after the grace period. If files are in
    /// flight again, nothing happens. Otherwise the totals of the batch are
    /// reported, on the system's notification surface if the process runs in
    /// the background and as `mode` says if it does not; and a process in the
    /// background is asked to end.
    pub fn on_grace_elapsed(&self, ticket: FinalizerTicket, mode: NotifyMode) -> (outcome:
        Finalization)
        ensures
            match self@.batch.report() {
                Some((successes, failures)) => {
                    &&& outcome.exit == exit_after_batch(self@.background)
                    &&& match batch_surface(successes, failures, mode, self@.background) {
                        Some(surface) => outcome.notice is Some && outcome.notice->0.surface
                            == surface && outcome.notice->0.message@ == batch_message_text(
                            successes,
                            failures,
                        ),
                        None => outcome.notice is None,
                    }
                },
                None => outcome.notice is None && outcome.exit is None,
            },
    {
        match self.batch.grace_elapsed(ticket) {
            Some((successes, failures)) => Finalization {
                notice: notify_batch_result(successes, failures, mode, self.background),
                exit: request_exit(self.background),
            },
            None => Finalization { notice: None, exit: None },
        }
    }
}

/// The two flags of the process only ever go from false to true: no
/// invocation, no report of the interface and no completion of a file takes
/// the process out of background mode or makes the interface unready again.
pub proof fn lemma_flags_are_sticky(
    state: CoordinatorView,
    invocation: InvocationView,
    window: WindowStatus,
    outcome: Outcome,
)
    ensures
        state.frontend_ready ==> state.route(invocation, window).0.frontend_ready,
        state.background ==> state.route(invocation, window).0.background,
        state.ready().frontend_ready,
        state.background ==> state.ready().background,
        state.frontend_ready ==> state.file_done(outcome).frontend_ready,
        state.background ==> state.file_done(outcome).background,
{
}

/// Only a request for silent compression that arrives in a silent launch puts
/// the process into background mode.
pub proof fn lemma_background_needs_silent_launch(
    state: CoordinatorView,
    invocation: InvocationView,
    window: WindowStatus,
)
    requires
        !state.background,
        state.route(invocation, window).0.background,
    ensures
        invocation is FilesToCompressSilently,
        invocation.files().len() > 0,
        silent_launch(state.frontend_ready, window.visible),
{
}

/// The startup queue is handed over once: after the interface has reported
/// that it is ready, the queue is empty and no invocation puts a file into it
/// again.
pub proof fn lemma_queue_is_drained_once(
    state: CoordinatorView,
    invocation: InvocationView,
    window: WindowStatus,
)
    ensures
        state.ready().wf(),
        state.wf() ==> state.route(invocation, window).0.wf(),
        state.frontend_ready ==> state.route(invocation, window).0.startup_queue
            == state.startup_queue,
{
}

/// Files are never lost on the way to the interface: while it is not ready,
/// the files of an invocation that is meant for it are appended to the queue
/// in their order, each with the answer to "compress at once?".
pub proof fn lemma_unready_interface_gets_files_later(
    state: CoordinatorView,
    invocation: InvocationView,
    window: WindowStatus,
)
    requires
        !state.frontend_ready,
        invocation is FilesToOpen || invocation is FilesToCompressForeground,
    ensures
        state.route(invocation, window).0.startup_queue == state.startup_queue + queued(
            invocation.files(),
            invocation is FilesToCompressForeground,
        ),
{
    if invocation.files().len() == 0 {
        assert(state.startup_queue + queued(
            invocation.files(),
            invocation is FilesToCompressForeground,
        ) =~= state.startup_queue);
    }
}

/// Once the interface is ready it gets the files of an invocation at once,
/// all of them in one event and before the window comes to the front.
pub proof fn lemma_ready_interface_gets_files_at_once(
    state: CoordinatorView,
    invocation: InvocationView,
    window: WindowStatus,
)
    requires
        state.frontend_ready,
        invocation.files().len() > 0,
        invocation is FilesToOpen || invocation is FilesToCompressForeground,
    ensures
        state.route(invocation, window).0 == state,
        state.route(invocation, window).1 == seq![
            if invocation is FilesToOpen {
                EffectView::AddFiles(invocation.files())
            } else {
                EffectView::CompressFiles(invocation.files())
            },
        ] + show_window(window),
{
}

/// Where no window has been created, no invocation asks for one to be shown.
pub proof fn lemma_no_window_is_never_shown(
    state: CoordinatorView,
    invocation: InvocationView,
    window: WindowStatus,
)
    requires
        !window.exists,
    ensures
        !state.route(invocation, window).1.contains(EffectView::ShowWindow),
{
    let effects = state.route(invocation, window).1;
    assert forall|i: int| 0 <= i < effects.len() implies effects[i] != EffectView::ShowWindow by {
        let files = invocation.files();
        if files.len() > 0 {
            match invocation {
                InvocationView::FilesToCompressSilently(_) => {
                    if silent_launch(state.frontend_ready, window.visible) {
                        if i > 0 {
                            assert(effects[i] == start_each(files)[i - 1]);
                        }
                    }
                },
                _ => {},
            }
        }
    }
}

/// Bringing the window to the front changes nothing that the coordinator
/// remembers, so doing it again asks for the same effects again and still
/// changes nothing.
pub proof fn lemma_coming_to_front_is_idempotent(state: CoordinatorView, window: WindowStatus)
    ensures
        state.route(InvocationView::Empty, window) == (state, show_window(window)),
        state.route(InvocationView::Empty, window).0.route(InvocationView::Empty, window)
            == state.route(InvocationView::Empty, window),
{
}

/// A request for silent compression starts exactly one unit of work per
/// file, in the order of the files, and counts each of them as in flight.
pub proof fn lemma_silent_compression_starts_every_file(
    state: CoordinatorView,
    files: Seq<Seq<char>>,
    window: WindowStatus,
)
    requires
        files.len() > 0,
    ensures
        ({
            let (after, effects) = state.route(
                InvocationView::FilesToCompressSilently(files),
                window,
            );
            &&& after.batch == state.batch.enqueue_many(files.len())
            &&& after.batch.pending == state.batch.pending + files.len()
            &&& effects == if silent_launch(state.frontend_ready, window.visible) {
                seq![EffectView::EnterBackground] + start_each(files)
            } else {
                start_each(files)
            }
        }),
{
    crate::batch::lemma_enqueue_many(state.batch, files.len());
}

} // verus!
