//! The rendered-fetch orchestrator: a state machine that sequences session
//! creation, page opening, warm-up delay, navigation, load wait, settle
//! delay, content read, screenshot capture and teardown, and that cleans up
//! on every failure path.
//!
//! The machine owns no renderer itself. It is driven from outside: the
//! shell performs each `Action` the machine hands out (launch, navigate,
//! sleep, capture, close) and feeds back an `Event` saying how the step
//! went. Every decision — what comes next, which error a fault becomes,
//! when the page and session must be closed — is taken here, under
//! contract. The principal resource-safety invariant is visible in
//! `wf`: on every terminal state the number of session closes equals the
//! number of successful session creations.

use vstd::pervasive::unreached;
use vstd::prelude::*;

use crate::errors::ErrorKind;
use crate::errors::FetchError;
use crate::fetch::FetchResult;
use crate::fetch::valid_status;
use crate::timing::DelayConfig;

verus! {

/// The milestones of one rendered fetch. `Closed` and `Failed` are the
/// terminal states; `Failed` is reachable from every non-terminal one.
#[derive(Clone, Copy, PartialEq, Eq, Structural, Debug)]
pub enum Phase {
    /// Nothing exists yet; the session launch is pending.
    Idle,
    /// The renderer process is up and its event drain runs; a blank page
    /// is being opened.
    SessionCreated,
    /// A page is open; the warm-up delay is pending.
    PageOpened,
    /// The warm-up delay has elapsed; navigation is pending.
    WarmedUp,
    /// The navigation command was issued; the load wait is pending.
    Navigated,
    /// The page reported its load complete; the settle delay is pending.
    Loaded,
    /// The settle delay has elapsed; the content read is pending.
    Settled,
    /// The page content is held; the screenshot capture is pending.
    ContentRead,
    /// Content and screenshot are held; the page close is pending.
    CaptureComplete,
    /// A fault occurred while the page was open; the cleanup page close is
    /// pending and the primary failure is recorded.
    ClosingPage,
    /// The page is gone; the session close is pending.
    ClosingSession,
    /// Terminal success: everything captured, everything closed.
    Closed,
    /// Terminal failure: the primary failure is recorded and every session
    /// that was created has been closed.
    Failed,
}

/// What the shell reports back after performing the pending action.
#[derive(Debug)]
pub enum Event {
    /// The step completed.
    Done,
    /// The content read completed, with the page text.
    Content(String),
    /// The screenshot capture completed, with the PNG bytes.
    Shot(Vec<u8>),
    /// The step failed, with the underlying cause.
    Fault(String),
}

/// What the shell is to do next.
#[derive(Debug)]
pub enum Action {
    /// Launch the renderer process and start draining its event stream.
    CreateSession,
    /// Open a blank page in the session.
    OpenPage,
    /// Suspend for a humanized delay sampled from `[lo_ms, hi_ms)`.
    Delay { lo_ms: u64, hi_ms: u64 },
    /// Issue the navigation command for the given URL.
    Navigate(String),
    /// Wait until the renderer signals navigation completion.
    WaitForLoad,
    /// Read the page content.
    ReadContent,
    /// Capture a PNG screenshot of the page.
    CaptureScreenshot,
    /// Close the page.
    ClosePage,
    /// Stop the event drain and release the renderer process.
    CloseSession,
    /// Nothing is left to do; the fetch's outcome is attached.
    Finished(Result<FetchResult, FetchError>),
}

/// One rendered fetch in progress. Each fetch owns its flow exclusively;
/// two flows share nothing, which is what makes concurrent fetches safe.
#[derive(Debug)]
#[verifier::ext_equal]
pub struct RenderFlow {
    pub phase: Phase,
    /// The delay windows this fetch was configured with.
    pub cfg: DelayConfig,
    /// The target URL, fixed at construction.
    pub url: String,
    /// An identifier the creator chose for this fetch's session; never
    /// adopted from, or leaked to, any other flow.
    pub session_id: u64,
    /// How many sessions this flow successfully created (0 or 1).
    pub sessions_created: u64,
    /// How many sessions this flow closed or released.
    pub sessions_closed: u64,
    /// Whether a page is currently open.
    pub page_open: bool,
    /// The page content, once read.
    pub body: Option<String>,
    /// The screenshot, once captured.
    pub shot: Option<Vec<u8>>,
    /// The primary failure, once one occurred. Never overwritten by a
    /// later cleanup failure.
    pub failure: Option<FetchError>,
    /// Causes of best-effort cleanup steps that failed while handling the
    /// primary failure; reported, never promoted.
    pub cleanup_notes: Vec<String>,
}

/// Which error family a fault belongs to, by where in the flow it struck:
/// launching is a browser-launch failure, navigating and waiting for the
/// load are navigation failures, everything else on a live session is a
/// render failure.
pub open spec fn fault_error(phase: Phase, m: String) -> FetchError {
    match phase {
        Phase::Idle => FetchError::BrowserLaunch(m),
        Phase::WarmedUp => FetchError::Navigation(m),
        Phase::Navigated => FetchError::Navigation(m),
        _ => FetchError::Render(m),
    }
}

/// The action is a finish whose error agrees with `e`.
pub open spec fn finishes_err(act: Action, e: FetchError) -> bool {
    act matches Action::Finished(out) && out matches Err(ae) && ae.agrees_with(&e)
}

/// The action is a finish whose result carries exactly the captured body
/// and screenshot, the fixed status 200 of the rendered path, and nothing
/// that only the direct path reports.
pub open spec fn finishes_ok(act: Action, body: String, shot: Vec<u8>) -> bool {
    act matches Action::Finished(out) && out matches Ok(res) && res.body == body
        && res.status == 200 && res.content_length is None && res.headers@.len() == 0
        && res.screenshot == Some(shot)
}

impl RenderFlow {
    /// Exactly one session is open.
    pub open spec fn open_session(&self) -> bool {
        self.sessions_created == 1 && self.sessions_closed == 0
    }

    /// The flow has reached a terminal state.
    pub open spec fn is_terminal_spec(&self) -> bool {
        self.phase == Phase::Closed || self.phase == Phase::Failed
    }

    /// Well-formedness: the bookkeeping agrees with the phase. In
    /// particular, a session is open in exactly the phases between creation
    /// and close, and in both terminal phases every created session has
    /// been closed — the resource-safety invariant.
    pub open spec fn wf(&self) -> bool {
        &&& self.cfg.wf()
        &&& self.url@.len() > 0
        &&& self.sessions_closed <= self.sessions_created <= 1
        &&& match self.phase {
            Phase::Idle => self.sessions_created == 0 && !self.page_open && self.body is None
                && self.shot is None && self.failure is None,
            Phase::SessionCreated => self.open_session() && !self.page_open
                && self.failure is None,
            Phase::PageOpened => self.open_session() && self.page_open && self.failure is None,
            Phase::WarmedUp => self.open_session() && self.page_open && self.failure is None,
            Phase::Navigated => self.open_session() && self.page_open && self.failure is None,
            Phase::Loaded => self.open_session() && self.page_open && self.failure is None,
            Phase::Settled => self.open_session() && self.page_open && self.failure is None,
            Phase::ContentRead => self.open_session() && self.page_open && self.body is Some
                && self.failure is None,
            Phase::CaptureComplete => self.open_session() && self.page_open
                && self.body is Some && self.shot is Some && self.failure is None,
            Phase::ClosingPage => self.open_session() && self.page_open
                && self.failure is Some,
            Phase::ClosingSession => self.open_session() && !self.page_open
                && (self.failure is Some || (self.body is Some && self.shot is Some)),
            Phase::Closed => self.sessions_created == 1 && self.sessions_closed == 1
                && !self.page_open && self.failure is None,
            Phase::Failed => self.sessions_created == self.sessions_closed
                && !self.page_open && self.failure is Some,
        }
    }

    /// Which events the pending step can produce: the content read yields
    /// text, the capture yields bytes, every other step just completes; any
    /// step can fault. A terminal flow accepts anything (and rejects it as
    /// a session-closed failure).
    pub open spec fn event_fits(&self, ev: &Event) -> bool {
        if self.is_terminal_spec() {
            true
        } else {
            match self.phase {
                Phase::Settled => ev matches Event::Content(_) || ev matches Event::Fault(_),
                Phase::ContentRead => ev matches Event::Shot(_) || ev matches Event::Fault(_),
                _ => ev matches Event::Done || ev matches Event::Fault(_),
            }
        }
    }
}

/// How a non-terminal flow advances when its pending step completes.
pub open spec fn done_step(pre: RenderFlow, post: RenderFlow, act: Action) -> bool {
    match pre.phase {
        Phase::Idle => {
            &&& post == (RenderFlow { phase: Phase::SessionCreated, sessions_created: 1u64, ..pre })
            &&& act == Action::OpenPage
        },
        Phase::SessionCreated => {
            &&& post == (RenderFlow { phase: Phase::PageOpened, page_open: true, ..pre })
            &&& act == (Action::Delay { lo_ms: pre.cfg.warm_lo, hi_ms: pre.cfg.warm_hi })
        },
        Phase::PageOpened => {
            &&& post == (RenderFlow { phase: Phase::WarmedUp, ..pre })
            &&& act matches Action::Navigate(u) && u@ == pre.url@
        },
        Phase::WarmedUp => {
            &&& post == (RenderFlow { phase: Phase::Navigated, ..pre })
            &&& act == Action::WaitForLoad
        },
        Phase::Navigated => {
            &&& post == (RenderFlow { phase: Phase::Loaded, ..pre })
            &&& act == (Action::Delay { lo_ms: pre.cfg.settle_lo, hi_ms: pre.cfg.settle_hi })
        },
        Phase::Loaded => {
            &&& post == (RenderFlow { phase: Phase::Settled, ..pre })
            &&& act == Action::ReadContent
        },
        Phase::CaptureComplete => {
            &&& post == (RenderFlow { phase: Phase::ClosingSession, page_open: false, ..pre })
            &&& act == Action::CloseSession
        },
        Phase::ClosingPage => {
            &&& post == (RenderFlow { phase: Phase::ClosingSession, page_open: false, ..pre })
            &&& act == Action::CloseSession
        },
        Phase::ClosingSession => {
            if pre.failure is Some {
                &&& post == (RenderFlow {
                    phase: Phase::Failed,
                    sessions_closed: (pre.sessions_closed + 1) as u64,
                    ..pre
                })
                &&& finishes_err(act, pre.failure->0)
            } else {
                &&& post == (RenderFlow {
                    phase: Phase::Closed,
                    sessions_closed: (pre.sessions_closed + 1) as u64,
                    body: None,
                    shot: None,
                    ..pre
                })
                &&& finishes_ok(act, pre.body->0, pre.shot->0)
            }
        },
        _ => false,
    }
}

/// How a non-terminal flow advances when its pending step faults: the
/// fault becomes the primary failure unless one is already recorded, and
/// the flow turns to whatever cleanup is still owed — the page close if a
/// page is open, then the session close, and only then `Failed`.
pub open spec fn fault_step(pre: RenderFlow, m: String, post: RenderFlow, act: Action) -> bool {
    match pre.phase {
        Phase::Idle => {
            &&& post == (RenderFlow {
                phase: Phase::Failed,
                failure: Some(fault_error(Phase::Idle, m)),
                ..pre
            })
            &&& finishes_err(act, fault_error(Phase::Idle, m))
        },
        Phase::SessionCreated => {
            &&& post == (RenderFlow {
                phase: Phase::ClosingSession,
                failure: Some(fault_error(Phase::SessionCreated, m)),
                ..pre
            })
            &&& act == Action::CloseSession
        },
        Phase::PageOpened | Phase::WarmedUp | Phase::Navigated | Phase::Loaded | Phase::Settled
            | Phase::ContentRead => {
            &&& post == (RenderFlow {
                phase: Phase::ClosingPage,
                failure: Some(fault_error(pre.phase, m)),
                ..pre
            })
            &&& act == Action::ClosePage
        },
        Phase::CaptureComplete => {
            &&& post == (RenderFlow {
                phase: Phase::ClosingSession,
                page_open: false,
                failure: Some(fault_error(Phase::CaptureComplete, m)),
                ..pre
            })
            &&& act == Action::CloseSession
        },
        Phase::ClosingPage => {
            &&& post.phase == Phase::ClosingSession
            &&& !post.page_open
            &&& post.failure == pre.failure
            &&& post.cleanup_notes@ == pre.cleanup_notes@.push(m)
            &&& post.body == pre.body
            &&& post.shot == pre.shot
            &&& post.sessions_created == pre.sessions_created
            &&& post.sessions_closed == pre.sessions_closed
            &&& post.cfg == pre.cfg
            &&& post.url == pre.url
            &&& post.session_id == pre.session_id
            &&& act == Action::CloseSession
        },
        Phase::ClosingSession => {
            &&& post.phase == Phase::Failed
            &&& !post.page_open
            &&& post.sessions_created == pre.sessions_created
            &&& post.sessions_closed == pre.sessions_closed + 1
            &&& post.body == pre.body
            &&& post.shot == pre.shot
            &&& post.cfg == pre.cfg
            &&& post.url == pre.url
            &&& post.session_id == pre.session_id
            &&& if pre.failure is Some {
                post.failure == pre.failure && post.cleanup_notes@ == pre.cleanup_notes@.push(m)
            } else {
                post.failure == Some(FetchError::Render(m))
                    && post.cleanup_notes == pre.cleanup_notes
            }
            &&& post.failure matches Some(e) && finishes_err(act, e)
        },
        Phase::Closed | Phase::Failed => false,
    }
}

/// The full step relation of the orchestrator: what `on_event` does to the
/// flow and which action it hands back, for every state and event. On a
/// terminal flow any further event is rejected as a session-closed failure
/// and the flow is left untouched.
pub open spec fn transition(pre: RenderFlow, ev: Event, post: RenderFlow, act: Action) -> bool {
    if pre.is_terminal_spec() {
        &&& post == pre
        &&& act matches Action::Finished(out) && out matches Err(e)
            && e.kind_spec() == ErrorKind::SessionClosed
    } else {
        match ev {
            Event::Done => done_step(pre, post, act),
            Event::Content(b) => {
                &&& pre.phase == Phase::Settled
                &&& post == (RenderFlow { phase: Phase::ContentRead, body: Some(b), ..pre })
                &&& act == Action::CaptureScreenshot
            },
            Event::Shot(bytes) => {
                &&& pre.phase == Phase::ContentRead
                &&& post == (RenderFlow { phase: Phase::CaptureComplete, shot: Some(bytes), ..pre })
                &&& act == Action::ClosePage
            },
            Event::Fault(m) => fault_step(pre, m, post, act),
        }
    }
}

/// Builds the error a fault becomes, matching `fault_error`.
fn fault_for(phase: Phase, m: String) -> (e: FetchError)
    ensures
        e == fault_error(phase, m),
{
    match phase {
        Phase::Idle => FetchError::BrowserLaunch(m),
        Phase::WarmedUp => FetchError::Navigation(m),
        Phase::Navigated => FetchError::Navigation(m),
        _ => FetchError::Render(m),
    }
}

impl RenderFlow {
    /// A fresh flow for one fetch of `url`, with the given delay windows
    /// and a session identifier of the creator's choosing. An empty URL is
    /// rejected as a navigation failure before anything is launched.
    pub fn new(cfg: DelayConfig, url: String, session_id: u64) -> (r: Result<RenderFlow, FetchError>)
        requires
            cfg.wf(),
        ensures
            r is Ok <==> url@.len() > 0,
            r matches Ok(f) ==> f.wf() && f.phase == Phase::Idle && f.cfg == cfg && f.url == url
                && f.session_id == session_id && f.sessions_created == 0
                && f.sessions_closed == 0 && f.cleanup_notes@.len() == 0,
            r matches Err(e) ==> e.kind_spec() == ErrorKind::Navigation && url@.len() == 0,
    {
        if url.as_str().unicode_len() == 0 {
            return Err(FetchError::Navigation(String::from_str("empty URL")));
        }
        Ok(RenderFlow {
            phase: Phase::Idle,
            cfg,
            url,
            session_id,
            sessions_created: 0,
            sessions_closed: 0,
            page_open: false,
            body: None,
            shot: None,
            failure: None,
            cleanup_notes: Vec::new(),
        })
    }

    /// The first action of every flow: launch the session.
    pub fn begin(&self) -> (act: Action)
        requires
            self.phase == Phase::Idle,
        ensures
            act == Action::CreateSession,
    {
        Action::CreateSession
    }

    /// Advances the flow by one completed or faulted step and hands back
    /// what the shell is to do next. The whole behaviour is pinned by the
    /// `transition` relation; well-formedness — including the session
    /// open/close balance — is preserved by every step.
    pub fn on_event(&mut self, ev: Event) -> (act: Action)
        requires
            old(self).wf(),
            old(self).event_fits(&ev),
        ensures
            final(self).wf(),
            transition(*old(self), ev, *final(self), act),
    {
        if self.phase == Phase::Closed || self.phase == Phase::Failed {
            return Action::Finished(Err(FetchError::SessionClosed(String::from_str(
                "page operation after session close",
            ))));
        }
        match ev {
            Event::Done => self.on_done(),
            Event::Content(b) => {
                self.phase = Phase::ContentRead;
                self.body = Some(b);
                Action::CaptureScreenshot
            },
            Event::Shot(bytes) => {
                self.phase = Phase::CaptureComplete;
                self.shot = Some(bytes);
                Action::ClosePage
            },
            Event::Fault(m) => self.on_fault(m),
        }
    }

    fn on_done(&mut self) -> (act: Action)
        requires
            old(self).wf(),
            !old(self).is_terminal_spec(),
            old(self).phase != Phase::Settled,
            old(self).phase != Phase::ContentRead,
        ensures
            final(self).wf(),
            done_step(*old(self), *final(self), act),
    {
        match self.phase {
            Phase::Idle => {
                self.phase = Phase::SessionCreated;
                self.sessions_created = 1;
                Action::OpenPage
            },
            Phase::SessionCreated => {
                self.phase = Phase::PageOpened;
                self.page_open = true;
                Action::Delay { lo_ms: self.cfg.warm_lo, hi_ms: self.cfg.warm_hi }
            },
            Phase::PageOpened => {
                self.phase = Phase::WarmedUp;
                Action::Navigate(self.url.clone())
            },
            Phase::WarmedUp => {
                self.phase = Phase::Navigated;
                Action::WaitForLoad
            },
            Phase::Navigated => {
                self.phase = Phase::Loaded;
                Action::Delay { lo_ms: self.cfg.settle_lo, hi_ms: self.cfg.settle_hi }
            },
            Phase::Loaded => {
                self.phase = Phase::Settled;
                Action::ReadContent
            },
            Phase::CaptureComplete => {
                self.phase = Phase::ClosingSession;
                self.page_open = false;
                Action::CloseSession
            },
            Phase::ClosingPage => {
                self.phase = Phase::ClosingSession;
                self.page_open = false;
                Action::CloseSession
            },
            Phase::ClosingSession => {
                self.sessions_closed = self.sessions_closed + 1;
                if self.failure.is_some() {
                    self.phase = Phase::Failed;
                    let d = match self.failure.as_ref() {
                        Some(e) => e.duplicate(),
                        None => unreached(),
                    };
                    Action::Finished(Err(d))
                } else {
                    self.phase = Phase::Closed;
                    let b = match self.body.take() {
                        Some(b) => b,
                        None => unreached(),
                    };
                    let s = match self.shot.take() {
                        Some(s) => s,
                        None => unreached(),
                    };
                    Action::Finished(Ok(FetchResult::from_render(b, s)))
                }
            },
            Phase::Settled | Phase::ContentRead | Phase::Closed | Phase::Failed => unreached(),
        }
    }

    fn on_fault(&mut self, m: String) -> (act: Action)
        requires
            old(self).wf(),
            !old(self).is_terminal_spec(),
        ensures
            final(self).wf(),
            fault_step(*old(self), m, *final(self), act),
    {
        match self.phase {
            Phase::Idle => {
                let e = fault_for(Phase::Idle, m);
                let d = e.duplicate();
                self.phase = Phase::Failed;
                self.failure = Some(e);
                Action::Finished(Err(d))
            },
            Phase::SessionCreated => {
                self.failure = Some(fault_for(Phase::SessionCreated, m));
                self.phase = Phase::ClosingSession;
                Action::CloseSession
            },
            Phase::PageOpened | Phase::WarmedUp | Phase::Navigated | Phase::Loaded
                | Phase::Settled | Phase::ContentRead => {
                self.failure = Some(fault_for(self.phase, m));
                self.phase = Phase::ClosingPage;
                Action::ClosePage
            },
            Phase::CaptureComplete => {
                self.failure = Some(fault_for(Phase::CaptureComplete, m));
                self.phase = Phase::ClosingSession;
                self.page_open = false;
                Action::CloseSession
            },
            Phase::ClosingPage => {
                self.cleanup_notes.push(m);
                self.phase = Phase::ClosingSession;
                self.page_open = false;
                Action::CloseSession
            },
            Phase::ClosingSession => {
                self.sessions_closed = self.sessions_closed + 1;
                self.phase = Phase::Failed;
                if self.failure.is_some() {
                    self.cleanup_notes.push(m);
                    let d = match self.failure.as_ref() {
                        Some(e) => e.duplicate(),
                        None => unreached(),
                    };
                    Action::Finished(Err(d))
                } else {
                    let e = FetchError::Render(m);
                    let d = e.duplicate();
                    self.failure = Some(e);
                    Action::Finished(Err(d))
                }
            },
            Phase::Closed | Phase::Failed => unreached(),
        }
    }
}

/// Resource safety: a terminal flow has closed exactly as many sessions as
/// it created, whichever path — success or any failure — it took.
pub proof fn lemma_sessions_balanced(f: RenderFlow)
    requires
        f.wf(),
        f.is_terminal_spec(),
    ensures
        f.sessions_closed == f.sessions_created,
{
}

/// Isolation: a step never touches another flow's state, and never changes
/// this flow's identity — its configuration, target URL and session
/// identifier come out of every transition unchanged.
pub proof fn lemma_step_preserves_identity(
    pre: RenderFlow,
    ev: Event,
    post: RenderFlow,
    act: Action,
)
    requires
        transition(pre, ev, post, act),
    ensures
        post.cfg == pre.cfg,
        post.url == pre.url,
        post.session_id == pre.session_id,
{
}

/// Humanized delays stay configured: every `Delay` action a transition
/// emits carries exactly the flow's configured warm-up or settle window,
/// and that window is non-empty.
pub proof fn lemma_delay_actions_configured(
    pre: RenderFlow,
    ev: Event,
    post: RenderFlow,
    act: Action,
)
    requires
        pre.wf(),
        transition(pre, ev, post, act),
    ensures
        act matches Action::Delay { lo_ms, hi_ms } ==> lo_ms < hi_ms && ((lo_ms == pre.cfg.warm_lo
            && hi_ms == pre.cfg.warm_hi) || (lo_ms == pre.cfg.settle_lo && hi_ms
            == pre.cfg.settle_hi)),
{
}

/// Declared status of the rendered path: whenever a transition finishes a
/// fetch successfully, the result's status is exactly 200 — a valid
/// three-digit HTTP status — because this design does not observe the true
/// network status of the primary resource.
pub proof fn lemma_rendered_status(pre: RenderFlow, ev: Event, post: RenderFlow, act: Action)
    requires
        transition(pre, ev, post, act),
    ensures
        act matches Action::Finished(Ok(res)) ==> res.status == 200 && valid_status(res.status),
{
    if !pre.is_terminal_spec() {
        match ev {
            Event::Done => {
                assert(done_step(pre, post, act));
            },
            Event::Content(b) => {},
            Event::Shot(bytes) => {},
            Event::Fault(m) => {
                assert(fault_step(pre, m, post, act));
            },
        }
    }
}

} // verus!
