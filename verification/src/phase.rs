//! The workflow state machine.
//!
//! Exactly one phase is active at a time, moving strictly along
//! `Idle -> Capturing -> Reconstructing -> Complete`, with an explicit reset
//! back to `Idle` from any later phase. Every externally triggered operation
//! is dispatched against the current phase value; operations that may cause
//! a transition consume it and return the replacement together with the
//! result, so the phase slot always holds a valid value. Outside work —
//! posting the plan to the device, spawning the reconstruction process —
//! happens between two such operations: the first decides and directs, the
//! second installs the transition once the work's outcome is known.

use vstd::prelude::*;
use vstd::seq_lib::*;
use crate::com;
use crate::console::{Message, MessageBody, spec_message_json};
use crate::model::{ImageAppStatus, PageForm};
use crate::parse::spec_int_of;
use crate::sync::ImageDownloader;

verus! {

/// The idle phase: no capture plan submitted yet.
#[derive(Clone, Copy, Debug)]
pub struct Start {}

/// The capture phase: the plan is submitted and the synchronization engine
/// is reconciling the device's ready images into the local store.
pub struct ImagePhase {
    pub image_downloader: ImageDownloader,
}

/// The reconstruction phase: the external program is running; its console
/// transcript accumulates as delivered notification texts, frozen once the
/// terminal event is recorded.
pub struct PhotogrammetryPhase {
    pub console_output: Vec<String>,
    pub terminal_recorded: bool,
}

/// The terminal phase: a finished artifact is available for retrieval.
#[derive(Clone, Copy, Debug)]
pub struct ModelPhase {}

/// The workflow's single active phase.
pub enum WorkflowPhase {
    Idle(Start),
    Capturing(ImagePhase),
    Reconstructing(PhotogrammetryPhase),
    Complete(ModelPhase),
}

/// Which page the current phase presents.
#[derive(PartialEq, Eq, Structural, Clone, Copy, Debug)]
pub enum PageKind {
    StartupPage,
    ImagePhasePage,
    PhotogrammetryPage,
    ModelPage,
}

/// The cancellation a reset must issue for the consumed phase's background
/// work: stop the synchronization loop, terminate the reconstruction
/// process, or nothing.
#[derive(PartialEq, Eq, Structural, Clone, Copy, Debug)]
pub enum CancelSignal {
    Nothing,
    StopSync,
    KillProcess,
}

/// What an operation answers: a page to present, a phase-specific payload,
/// a redirect, a directive for outside work, or a failure.
pub enum PhaseResponse {
    Page(PageKind),
    NotFoundInPhase(String, String),
    Redirect(String),
    StatusJson(ImageAppStatus),
    ImageList(Vec<String>),
    ConsoleLog(Vec<String>),
    ArchiveFile(String),
    ServeImage(String),
    ImageNotFound,
    ServerError(String),
    StartWebsocket,
}

/// The operation is not valid in the current phase: a normal, expected
/// result naming the endpoint and the phase that refused it.
pub open spec fn is_not_found(r: PhaseResponse, endpoint: Seq<char>, phase: Seq<char>) -> bool {
    &&& r matches PhaseResponse::NotFoundInPhase(e, p)
    &&& e@ == endpoint
    &&& p@ == phase
}

pub open spec fn is_redirect(r: PhaseResponse, path: Seq<char>) -> bool {
    &&& r matches PhaseResponse::Redirect(p)
    &&& p@ == path
}

pub open spec fn is_server_error(r: PhaseResponse, message: Seq<char>) -> bool {
    &&& r matches PhaseResponse::ServerError(m)
    &&& m@ == message
}

fn endpoint_not_found_in_phase(endpoint: &str, phase: &str) -> (r: PhaseResponse)
    ensures
        is_not_found(r, endpoint@, phase@),
{
    PhaseResponse::NotFoundInPhase(String::from_str(endpoint), String::from_str(phase))
}

fn redirect_response(path: &str) -> (r: PhaseResponse)
    ensures
        is_redirect(r, path@),
{
    PhaseResponse::Redirect(String::from_str(path))
}

impl PhotogrammetryPhase {
    pub fn new() -> (r: PhotogrammetryPhase)
        ensures
            r.console_output.deep_view() == Seq::<Seq<char>>::empty(),
            r.terminal_recorded == false,
    {
        let r = PhotogrammetryPhase { console_output: Vec::new(), terminal_recorded: false };
        proof {
            assert(r.console_output.deep_view() =~= Seq::<Seq<char>>::empty());
        }
        r
    }

    /// One console line arrived: it is appended to the transcript as its
    /// notification text, which is also returned for delivery to the
    /// observer — transcript and observer see lines in the same order.
    pub fn handle_line(&mut self, line: String) -> (n: String)
        ensures
            n@ == spec_message_json(Message::NewConsoleOutput(MessageBody { body: line })),
            final(self).console_output.deep_view() == old(self).console_output.deep_view().push(
                n@,
            ),
            final(self).terminal_recorded == old(self).terminal_recorded,
    {
        let ghost pre = self.console_output.deep_view();
        let n = Message::NewConsoleOutput(MessageBody::from(line)).into_json();
        let copy = n.clone();
        self.console_output.push(copy);
        proof {
            assert(self.console_output.deep_view() =~= pre.push(n@));
        }
        n
    }

    /// The process completed naturally: the terminal completion event is
    /// recorded once and returned for delivery; a second terminal report is
    /// ignored.
    pub fn finish(&mut self) -> (n: Option<String>)
        ensures
            old(self).terminal_recorded ==> *final(self) == *old(self) && n is None,
            !old(self).terminal_recorded ==> {
                &&& final(self).terminal_recorded
                &&& (n matches Some(t) && t@ == spec_message_json(Message::Finished))
                &&& final(self).console_output.deep_view() == old(
                    self,
                ).console_output.deep_view().push(spec_message_json(Message::Finished))
            },
    {
        if self.terminal_recorded {
            return None;
        }
        let ghost pre = self.console_output.deep_view();
        let n = Message::Finished.into_json();
        let copy = n.clone();
        self.console_output.push(copy);
        self.terminal_recorded = true;
        proof {
            assert(self.console_output.deep_view() =~= pre.push(n@));
        }
        Some(n)
    }

    /// The process failed at the process level: the terminal error event is
    /// recorded once and returned for delivery; a second terminal report is
    /// ignored.
    pub fn fail(&mut self, error_message: String) -> (n: Option<String>)
        ensures
            old(self).terminal_recorded ==> *final(self) == *old(self) && n is None,
            !old(self).terminal_recorded ==> {
                &&& final(self).terminal_recorded
                &&& (n matches Some(t) && t@ == spec_message_json(
                    Message::Error(MessageBody { body: error_message }),
                ))
                &&& final(self).console_output.deep_view() == old(
                    self,
                ).console_output.deep_view().push(
                    spec_message_json(Message::Error(MessageBody { body: error_message })),
                )
            },
    {
        if self.terminal_recorded {
            return None;
        }
        let ghost pre = self.console_output.deep_view();
        let n = Message::Error(MessageBody { body: error_message }).into_json();
        let copy = n.clone();
        self.console_output.push(copy);
        self.terminal_recorded = true;
        proof {
            assert(self.console_output.deep_view() =~= pre.push(n@));
        }
        Some(n)
    }
}

/// What a plan submission decides: rejection, or the directive to post the
/// validated plan to the device at the given address.
pub enum SubmitOutcome {
    Rejected(PhaseResponse),
    PostPlan(String, com::Auftrag),
}

/// What an advance request against the capture phase decides: rejection, or
/// the directive to spawn the reconstruction process.
pub enum AdvanceOutcome {
    Rejected(PhaseResponse),
    SpawnProcess,
}

/// The phase name used when an operation is refused as not valid in the
/// current phase.
pub open spec fn spec_phase_name(p: WorkflowPhase) -> Seq<char> {
    match p {
        WorkflowPhase::Idle(_) => "Configuration"@,
        WorkflowPhase::Capturing(_) => "ImagePhase"@,
        WorkflowPhase::Reconstructing(_) => "PhotogrammetryPhase"@,
        WorkflowPhase::Complete(_) => "Model"@,
    }
}

fn phase_name(p: &WorkflowPhase) -> (r: &'static str)
    ensures
        r@ == spec_phase_name(*p),
{
    match p {
        WorkflowPhase::Idle(_) => "Configuration",
        WorkflowPhase::Capturing(_) => "ImagePhase",
        WorkflowPhase::Reconstructing(_) => "PhotogrammetryPhase",
        WorkflowPhase::Complete(_) => "Model",
    }
}

/// A plan submission is dispatched only against the idle phase.
pub open spec fn submit_allowed(p: WorkflowPhase) -> bool {
    p is Idle
}

/// The round counts a submitted capture form asks for.
pub open spec fn spec_form_rounds(a: crate::model::Auftrag) -> Seq<int> {
    seq![
        spec_int_of(a.input_runde1@),
        spec_int_of(a.input_runde2@),
        spec_int_of(a.input_runde3@),
    ]
}

/// A submitted capture form yields a valid plan: all round fields parse and
/// every round asks for at least one image.
pub open spec fn spec_form_plan_valid(a: crate::model::Auftrag) -> bool {
    &&& a.rounds_parse()
    &&& forall|i: int| 0 <= i < 3 ==> spec_form_rounds(a)[i] > 0
}

impl WorkflowPhase {
    /// The workflow starts idle.
    pub fn new() -> (r: WorkflowPhase)
        ensures
            r is Idle,
    {
        WorkflowPhase::Idle(Start {  })
    }

    /// The page the current phase presents.
    pub fn index(&self) -> (r: PhaseResponse)
        ensures
            self is Idle ==> r == PhaseResponse::Page(PageKind::StartupPage),
            self is Capturing ==> r == PhaseResponse::Page(PageKind::ImagePhasePage),
            self is Reconstructing ==> r == PhaseResponse::Page(PageKind::PhotogrammetryPage),
            self is Complete ==> r == PhaseResponse::Page(PageKind::ModelPage),
    {
        match self {
            WorkflowPhase::Idle(_) => PhaseResponse::Page(PageKind::StartupPage),
            WorkflowPhase::Capturing(_) => PhaseResponse::Page(PageKind::ImagePhasePage),
            WorkflowPhase::Reconstructing(_) => PhaseResponse::Page(PageKind::PhotogrammetryPage),
            WorkflowPhase::Complete(_) => PhaseResponse::Page(PageKind::ModelPage),
        }
    }

    /// The capture status, available only while capturing.
    pub fn status(&self) -> (r: PhaseResponse)
        ensures
            self is Capturing ==> r == PhaseResponse::StatusJson(
                self->Capturing_0.image_downloader.app_image_status,
            ),
            self is Idle ==> is_not_found(r, "/status(get)"@, "Configuration"@),
            self is Reconstructing ==> is_not_found(r, "status"@, "PhotogrammetryPhase"@),
            self is Complete ==> is_not_found(r, "/status"@, "Model"@),
    {
        match self {
            WorkflowPhase::Idle(_) => endpoint_not_found_in_phase("/status(get)", "Configuration"),
            WorkflowPhase::Capturing(ip) => PhaseResponse::StatusJson(
                ip.image_downloader.get_status(),
            ),
            WorkflowPhase::Reconstructing(_) => endpoint_not_found_in_phase(
                "status",
                "PhotogrammetryPhase",
            ),
            WorkflowPhase::Complete(_) => endpoint_not_found_in_phase("/status", "Model"),
        }
    }

    /// Reset: valid from any phase; consumes the current phase, returns to
    /// idle, and directs the caller to stop the consumed phase's background
    /// work — the synchronization loop while capturing, the reconstruction
    /// process while reconstructing. The caller only issues the signal;
    /// termination is asynchronous.
    pub fn reset(self) -> (r: (WorkflowPhase, CancelSignal, PhaseResponse))
        ensures
            r.0 is Idle,
            self is Idle ==> r.1 == CancelSignal::Nothing && is_not_found(
                r.2,
                "/(delete)"@,
                "Configuration"@,
            ),
            self is Capturing ==> r.1 == CancelSignal::StopSync && is_redirect(r.2, "/"@),
            self is Reconstructing ==> r.1 == CancelSignal::KillProcess && is_redirect(r.2, "/"@),
            self is Complete ==> r.1 == CancelSignal::Nothing && is_redirect(r.2, "/"@),
    {
        match self {
            WorkflowPhase::Idle(start) => (
                WorkflowPhase::Idle(start),
                CancelSignal::Nothing,
                endpoint_not_found_in_phase("/(delete)", "Configuration"),
            ),
            WorkflowPhase::Capturing(_) => (
                WorkflowPhase::Idle(Start {  }),
                CancelSignal::StopSync,
                redirect_response("/"),
            ),
            WorkflowPhase::Reconstructing(_) => (
                WorkflowPhase::Idle(Start {  }),
                CancelSignal::KillProcess,
                redirect_response("/"),
            ),
            WorkflowPhase::Complete(_) => (
                WorkflowPhase::Idle(Start {  }),
                CancelSignal::Nothing,
                redirect_response("/"),
            ),
        }
    }

    /// Submitting a capture plan: valid only from `Idle`; anywhere else the
    /// form is rejected as not valid in the current phase and the phase is
    /// left untouched. From `Idle` the form is validated — it must be a plan
    /// form, every round field must parse, and the plan must be valid — and
    /// a valid plan yields the directive to post it to the device; the phase
    /// itself moves only once `enter_capturing` learns the posting's
    /// outcome.
    pub fn submit_plan(self, form: PageForm) -> (r: (WorkflowPhase, SubmitOutcome))
        ensures
            !submit_allowed(self) ==> r.0 == self && (r.1 matches SubmitOutcome::Rejected(resp)
                && is_not_found(resp, "/page_form(post)"@, spec_phase_name(self))),
            submit_allowed(self) ==> r.0 is Idle,
            submit_allowed(self) && (form matches PageForm::Empty) ==> (r.1
                matches SubmitOutcome::Rejected(resp) && is_server_error(
                resp,
                "Invalid Form was Submitted"@,
            )),
            submit_allowed(self) ==> (form matches PageForm::Auftrag(a) ==> ({
                &&& !a.rounds_parse() ==> (r.1 matches SubmitOutcome::Rejected(resp)
                    && is_server_error(resp, "invalid round count in form"@))
                &&& a.rounds_parse() && !spec_form_plan_valid(a) ==> (r.1
                    matches SubmitOutcome::Rejected(resp) && is_server_error(
                    resp,
                    "invalid capture plan"@,
                ))
                &&& spec_form_plan_valid(a) ==> (r.1 matches SubmitOutcome::PostPlan(url, plan)
                    && ({
                    &&& url@ == a.input_hostname@
                    &&& plan.auftrag@.len() == 3
                    &&& forall|i: int|
                        0 <= i < 3 ==> plan.auftrag@[i] as int == spec_form_rounds(a)[i]
                    &&& plan.is_valid()
                }))
            })),
    {
        match self {
            WorkflowPhase::Idle(start) => {
                match form {
                    PageForm::Empty => (
                        WorkflowPhase::Idle(start),
                        SubmitOutcome::Rejected(
                            PhaseResponse::ServerError(
                                String::from_str("Invalid Form was Submitted"),
                            ),
                        ),
                    ),
                    PageForm::Auftrag(a) => {
                        let ghost a0 = a;
                        let url = a.get_url().clone();
                        match a.into_vec() {
                            Err(_) => (
                                WorkflowPhase::Idle(start),
                                SubmitOutcome::Rejected(
                                    PhaseResponse::ServerError(
                                        String::from_str("invalid round count in form"),
                                    ),
                                ),
                            ),
                            Ok(rounds) => {
                                let plan = com::Auftrag::from_vec(rounds);
                                proof {
                                    let s = plan.auftrag@;
                                    assert(s[0] as int == spec_form_rounds(a0)[0]);
                                    assert(s[1] as int == spec_form_rounds(a0)[1]);
                                    assert(s[2] as int == spec_form_rounds(a0)[2]);
                                    if plan.is_valid() {
                                        assert forall|i: int|
                                            0 <= i < 3 implies spec_form_rounds(a0)[i] > 0 by {
                                            assert(s[i] > 0);
                                        };
                                        assert(spec_form_plan_valid(a0));
                                    } else {
                                        assert(s.len() == 3);
                                        assert(exists|i: int| 0 <= i < s.len() && !(s[i] > 0));
                                        let i = choose|i: int| 0 <= i < s.len() && !(s[i] > 0);
                                        assert(spec_form_rounds(a0)[i] <= 0);
                                        assert(!spec_form_plan_valid(a0));
                                    }
                                }
                                if plan.check_valid() {
                                    (WorkflowPhase::Idle(start), SubmitOutcome::PostPlan(url, plan))
                                } else {
                                    (
                                        WorkflowPhase::Idle(start),
                                        SubmitOutcome::Rejected(
                                            PhaseResponse::ServerError(
                                                String::from_str("invalid capture plan"),
                                            ),
                                        ),
                                    )
                                }
                            },
                        }
                    },
                }
            },
            other => {
                let resp = endpoint_not_found_in_phase("/page_form(post)", phase_name(&other));
                (other, SubmitOutcome::Rejected(resp))
            },
        }
    }

    /// Installs the capture phase once the plan has been posted to the
    /// device. On success the new phase owns a fresh synchronization state
    /// whose completion target is derived from the plan; a failed posting
    /// leaves the workflow idle and reports the failure.
    pub fn enter_capturing(self, url: String, plan: com::Auftrag, post_ok: bool) -> (r: (
        WorkflowPhase,
        PhaseResponse,
    ))
        ensures
            !(self is Idle) ==> r.0 == self && is_not_found(
                r.1,
                "/page_form(post)"@,
                spec_phase_name(self),
            ),
            self is Idle && !plan.is_valid() ==> r.0 is Idle && is_server_error(
                r.1,
                "invalid capture plan"@,
            ),
            self is Idle && plan.is_valid() && !post_ok ==> r.0 is Idle && is_server_error(
                r.1,
                "could not submit capture plan"@,
            ),
            self is Idle && plan.is_valid() && post_ok ==> (r.0
                matches WorkflowPhase::Capturing(ip) && ({
                let d = ip.image_downloader;
                &&& d.url@ == url@
                &&& d.target_server_status.runde as int == plan.auftrag@.len() - 1
                &&& d.target_server_status.aufnahme == plan.auftrag@.last()
                &&& d.app_image_status == ImageAppStatus::Start
                &&& d.reset == false
                &&& d.image_store@ == Seq::<Seq<char>>::empty()
                &&& d.wf()
            })) && is_redirect(r.1, "/"@),
    {
        match self {
            WorkflowPhase::Idle(start) => {
                if !plan.check_valid() {
                    (
                        WorkflowPhase::Idle(start),
                        PhaseResponse::ServerError(String::from_str("invalid capture plan")),
                    )
                } else if !post_ok {
                    (
                        WorkflowPhase::Idle(start),
                        PhaseResponse::ServerError(
                            String::from_str("could not submit capture plan"),
                        ),
                    )
                } else {
                    let target = plan.into_target_status();
                    let downloader = ImageDownloader::new(url, target);
                    (
                        WorkflowPhase::Capturing(ImagePhase { image_downloader: downloader }),
                        redirect_response("/"),
                    )
                }
            },
            other => {
                let resp = endpoint_not_found_in_phase("/page_form(post)", phase_name(&other));
                (other, resp)
            },
        }
    }

    /// An advance request against the capture phase: granted — as the
    /// directive to spawn the reconstruction process — only once the
    /// synchronization engine has signaled completion; the phase moves only
    /// once `enter_reconstructing` learns the spawn's outcome.
    pub fn try_advance(self) -> (r: (WorkflowPhase, AdvanceOutcome))
        ensures
            r.0 == self,
            self is Capturing && self->Capturing_0.image_downloader.app_image_status
                is Finished ==> r.1 is SpawnProcess,
            self is Capturing && !(self->Capturing_0.image_downloader.app_image_status
                is Finished) ==> (r.1 matches AdvanceOutcome::Rejected(resp) && is_server_error(
                resp,
                "capture is not complete"@,
            )),
            !(self is Capturing) ==> (r.1 matches AdvanceOutcome::Rejected(resp) && is_not_found(
                resp,
                "/page_form(post)"@,
                spec_phase_name(self),
            )),
    {
        match self {
            WorkflowPhase::Capturing(ip) => {
                let finished = matches!(
                    ip.image_downloader.get_status(),
                    ImageAppStatus::Finished
                );
                if finished {
                    (WorkflowPhase::Capturing(ip), AdvanceOutcome::SpawnProcess)
                } else {
                    (
                        WorkflowPhase::Capturing(ip),
                        AdvanceOutcome::Rejected(
                            PhaseResponse::ServerError(String::from_str("capture is not complete")),
                        ),
                    )
                }
            },
            other => {
                let resp = endpoint_not_found_in_phase("/page_form(post)", phase_name(&other));
                (other, AdvanceOutcome::Rejected(resp))
            },
        }
    }

    /// Installs the reconstruction phase once the process spawn's outcome is
    /// known. A failed spawn must not transition: the workflow remains
    /// capturing and the failure is reported to the caller.
    pub fn enter_reconstructing(self, spawn_ok: bool) -> (r: (WorkflowPhase, PhaseResponse))
        ensures
            self is Capturing && spawn_ok ==> (r.0 matches WorkflowPhase::Reconstructing(pp) && ({
                &&& pp.console_output.deep_view() == Seq::<Seq<char>>::empty()
                &&& pp.terminal_recorded == false
            })) && is_redirect(r.1, "/"@),
            self is Capturing && !spawn_ok ==> r.0 == self && is_server_error(
                r.1,
                "could not start reconstruction"@,
            ),
            !(self is Capturing) ==> r.0 == self && is_not_found(
                r.1,
                "/page_form(post)"@,
                spec_phase_name(self),
            ),
    {
        match self {
            WorkflowPhase::Capturing(ip) => {
                if spawn_ok {
                    (
                        WorkflowPhase::Reconstructing(PhotogrammetryPhase::new()),
                        redirect_response("/"),
                    )
                } else {
                    (
                        WorkflowPhase::Capturing(ip),
                        PhaseResponse::ServerError(
                            String::from_str("could not start reconstruction"),
                        ),
                    )
                }
            },
            other => {
                let resp = endpoint_not_found_in_phase("/page_form(post)", phase_name(&other));
                (other, resp)
            },
        }
    }

    /// Concludes the reconstruction phase: the artifact is ready and the
    /// workflow completes. The transcript of the consumed phase is frozen by
    /// being dropped with it; the packaged artifact is what `Complete`
    /// serves.
    pub fn finish_reconstruction(self) -> (r: (WorkflowPhase, PhaseResponse))
        ensures
            self is Reconstructing ==> r.0 is Complete && is_redirect(r.1, "/"@),
            !(self is Reconstructing) ==> r.0 == self && is_not_found(
                r.1,
                "/page_form(post)"@,
                spec_phase_name(self),
            ),
    {
        match self {
            WorkflowPhase::Reconstructing(_) => (
                WorkflowPhase::Complete(ModelPhase {  }),
                redirect_response("/"),
            ),
            other => {
                let resp = endpoint_not_found_in_phase("/page_form(post)", phase_name(&other));
                (other, resp)
            },
        }
    }

    /// The phase-specific content: the stored images' references while
    /// capturing, the console transcript while reconstructing, the archive
    /// while complete.
    pub fn get_content(&self) -> (r: PhaseResponse)
        ensures
            self is Idle ==> is_not_found(r, "media_content"@, "Configuration"@),
            self is Capturing ==> (r matches PhaseResponse::ImageList(v) && v.deep_view()
                == self->Capturing_0.image_downloader.image_store@.map_values(
                |n: Seq<char>| "/media_content/"@ + n,
            )),
            self is Reconstructing ==> (r matches PhaseResponse::ConsoleLog(v) && v.deep_view()
                == self->Reconstructing_0.console_output.deep_view()),
            self is Complete ==> (r matches PhaseResponse::ArchiveFile(p) && p@ == "/model.zip"@),
    {
        match self {
            WorkflowPhase::Idle(_) => endpoint_not_found_in_phase("media_content", "Configuration"),
            WorkflowPhase::Capturing(ip) => {
                let names = ip.image_downloader.get_image_list();
                let ghost names_v = names.deep_view();
                let ghost f = |n: Seq<char>| "/media_content/"@ + n;
                let mut out: Vec<String> = Vec::new();
                proof {
                    assert(out.deep_view() =~= names_v.subrange(0, 0).map_values(f));
                }
                let mut i: usize = 0;
                while i < names.len()
                    invariant
                        i <= names@.len(),
                        names_v == names.deep_view(),
                        f == (|n: Seq<char>| "/media_content/"@ + n),
                        out.deep_view() == names_v.subrange(0, i as int).map_values(f),
                    decreases names@.len() - i,
                {
                    let mut s = String::from_str("/media_content/");
                    let name = &names[i];
                    s.append(name.as_str());
                    let ghost pre = out.deep_view();
                    out.push(s);
                    proof {
                        assert(names_v[i as int] == names@[i as int]@);
                        assert(out.deep_view() =~= pre.push(f(names_v[i as int])));
                        assert(names_v.subrange(0, i + 1int).map_values(f) =~= names_v.subrange(
                            0,
                            i as int,
                        ).map_values(f).push(f(names_v[i as int])));
                    }
                    i = i + 1;
                }
                proof {
                    assert(names_v.subrange(0, names_v.len() as int) =~= names_v);
                }
                PhaseResponse::ImageList(out)
            },
            WorkflowPhase::Reconstructing(pp) => {
                let v = pp.console_output.clone();
                proof {
                    assert(v.deep_view() =~= pp.console_output.deep_view());
                    vstd::std_specs::vec::vec_clone_deep_view_proof(pp.console_output, v);
                }
                PhaseResponse::ConsoleLog(v)
            },
            WorkflowPhase::Complete(_) => PhaseResponse::ArchiveFile(crate::paths::archive_file()),
        }
    }

    /// One named content item: while capturing, the directive to serve the
    /// stored image of that name, or a plain not-found when no such image is
    /// stored.
    pub fn get_specific_content(&self, name: &String) -> (r: PhaseResponse)
        ensures
            self is Capturing && self->Capturing_0.image_downloader.image_store@.contains(name@)
                ==> (r matches PhaseResponse::ServeImage(n) && n@ == name@),
            self is Capturing && !self->Capturing_0.image_downloader.image_store@.contains(name@)
                ==> r is ImageNotFound,
            self is Idle ==> is_not_found(r, "media_content/{content_name}"@, "Configuration"@),
            self is Reconstructing ==> is_not_found(
                r,
                "/media_content/{content_name}"@,
                "PhotogrammetryPhase"@,
            ),
            self is Complete ==> is_not_found(r, "/media_content/{content_id}"@, "Model"@),
    {
        match self {
            WorkflowPhase::Idle(_) => endpoint_not_found_in_phase(
                "media_content/{content_name}",
                "Configuration",
            ),
            WorkflowPhase::Capturing(ip) => {
                if ip.image_downloader.contains_image(name) {
                    PhaseResponse::ServeImage(name.clone())
                } else {
                    PhaseResponse::ImageNotFound
                }
            },
            WorkflowPhase::Reconstructing(_) => endpoint_not_found_in_phase(
                "/media_content/{content_name}",
                "PhotogrammetryPhase",
            ),
            WorkflowPhase::Complete(_) => endpoint_not_found_in_phase(
                "/media_content/{content_id}",
                "Model",
            ),
        }
    }

    /// Whether the current phase accepts a new observer connection: during
    /// capture and reconstruction the caller is directed to open the
    /// websocket and attach its handle to the hub.
    pub fn ws_notification(&self) -> (r: PhaseResponse)
        ensures
            self is Idle ==> is_not_found(r, "ws_notification"@, "Configuration"@),
            self is Capturing ==> r is StartWebsocket,
            self is Reconstructing ==> r is StartWebsocket,
            self is Complete ==> is_not_found(r, "/ws_notification"@, "Model"@),
    {
        match self {
            WorkflowPhase::Idle(_) => endpoint_not_found_in_phase(
                "ws_notification",
                "Configuration",
            ),
            WorkflowPhase::Capturing(_) => PhaseResponse::StartWebsocket,
            WorkflowPhase::Reconstructing(_) => PhaseResponse::StartWebsocket,
            WorkflowPhase::Complete(_) => endpoint_not_found_in_phase("/ws_notification", "Model"),
        }
    }
}

/// Once the capture phase is installed, plan submission is no longer
/// allowed: together with the ensures of `submit_plan` — which leaves any
/// non-idle phase untouched and rejects the form as not valid in the
/// current phase — a second submission after a successful one is always
/// rejected.
pub proof fn lemma_submit_plan_once(p: WorkflowPhase)
    requires
        p is Capturing,
    ensures
        !submit_allowed(p),
{
}

} // verus!
