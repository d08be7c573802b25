//! The lifecycle of one attestation request.
//!
//! An attestation moves in one direction through its stages:
//! received, verifying, extracted, committed, proving, proved, and from
//! there either locally verified, or submitted and confirmed. Any step can
//! end it in a failure, which it never leaves.
//!
//! The controller does no outside work itself. Each step takes the event
//! that the outside world reported and answers with the next stage and the
//! action that the driver is to perform next.

use vstd::prelude::*;

use crate::certificate::{CertificateKind, CertificateRecord, RecordView, VerifiedDocument};
use crate::codec::{decode, decoding_of, PublicValues, PublicValuesView};
use crate::error::{error_of_extraction, AttestationError, AttestationErrorView};
use crate::extract::{
    extract_record, fields_in, lemma_fields_are_never_blank, text_of_document,
};
use crate::fixture::{response_of, verify_response, VerifyResponse};
use crate::utils::{commit, commitment_of};

verus! {

/// How far a request is to be taken once its proof exists.
#[derive(Clone, Copy, Debug, PartialEq, Eq, Structural)]
pub enum Goal {
    /// Stop when the proof exists.
    Prove,
    /// Check the proof against its verifying key and report the answer.
    ProveAndVerify,
    /// Submit the proof to the verifying contract and wait for the receipt.
    ProveAndRegister,
}

/// The stages of an attestation.
#[derive(Debug)]
pub enum Stage {
    Received,
    Verifying,
    Extracted,
    Committed,
    Proving,
    Proved,
    LocallyVerified,
    Submitted,
    Confirmed,
    Failed(AttestationError),
}

/// The mathematical content of a `Stage`.
pub ghost enum StageView {
    Received,
    Verifying,
    Extracted,
    Committed,
    Proving,
    Proved,
    LocallyVerified,
    Submitted,
    Confirmed,
    Failed(AttestationErrorView),
}

impl View for Stage {
    type V = StageView;

    open spec fn view(&self) -> StageView {
        match self {
            Stage::Received => StageView::Received,
            Stage::Verifying => StageView::Verifying,
            Stage::Extracted => StageView::Extracted,
            Stage::Committed => StageView::Committed,
            Stage::Proving => StageView::Proving,
            Stage::Proved => StageView::Proved,
            Stage::LocallyVerified => StageView::LocallyVerified,
            Stage::Submitted => StageView::Submitted,
            Stage::Confirmed => StageView::Confirmed,
            Stage::Failed(e) => StageView::Failed(e@),
        }
    }
}

impl StageView {
    /// The position of a stage in the one direction that an attestation
    /// moves in. A failure comes after everything.
    pub open spec fn rank(self) -> nat {
        match self {
            StageView::Received => 0,
            StageView::Verifying => 1,
            StageView::Extracted => 2,
            StageView::Committed => 3,
            StageView::Proving => 4,
            StageView::Proved => 5,
            StageView::LocallyVerified => 6,
            StageView::Submitted => 7,
            StageView::Confirmed => 8,
            StageView::Failed(_) => 9,
        }
    }
}

/// A proof as the proving service returns it: the proof's own bytes and the
/// encoded public values that it carries.
#[derive(Debug, Clone)]
pub struct ProofArtifact {
    pub proof: Vec<u8>,
    pub public_values: Vec<u8>,
}

/// The mathematical content of a `ProofArtifact`.
pub ghost struct ProofView {
    pub proof: Seq<u8>,
    pub public_values: Seq<u8>,
}

impl View for ProofArtifact {
    type V = ProofView;

    open spec fn view(&self) -> ProofView {
        ProofView { proof: self.proof@, public_values: self.public_values@ }
    }
}

/// What the outside world reports to the controller.
#[derive(Debug)]
pub enum Event {
    /// Nothing happened outside; the controller may take its next step.
    Continue,
    /// The document's signature was checked and its pages were read.
    DocumentVerified(VerifiedDocument),
    /// The document was rejected, for the reason given.
    DocumentRejected(String),
    /// The proving service returned a proof.
    ProofGenerated(ProofArtifact),
    /// The proving service failed, for the reason given.
    ProvingFailed(String),
    /// The verifier checked the proof: it passed, or it did not, for the
    /// reason given.
    ProofChecked(Result<(), String>),
    /// The submission was handed to the chain.
    SubmissionDispatched,
    /// The submission or the wait for its receipt failed in transport, for
    /// the reason given.
    SubmissionFailed(String),
    /// The receipt arrived, with its success flag.
    ReceiptReceived(bool),
}

/// What the driver is to do next.
#[derive(Clone, Copy, Debug, PartialEq, Eq, Structural)]
pub enum Action {
    /// Nothing outside: report `Continue`.
    Continue,
    /// Hand the document's bytes to the verifier of documents.
    VerifyDocument,
    /// Hand the document's bytes to the proving service.
    Prove,
    /// Check the proof against its verifying key.
    CheckProof,
    /// Call the verifying contract with the encoded public values and the
    /// proof's bytes.
    Submit,
    /// Wait for the receipt of the submission.
    AwaitReceipt,
    /// The attestation is over; its stage says how it ended.
    Finish,
    /// The event does not belong to the stage; nothing changed.
    Wait,
}

/// One attestation request and how far it has come.
pub struct Attestation {
    kind: CertificateKind,
    goal: Goal,
    document: Vec<u8>,
    stage: Stage,
    record: Option<CertificateRecord>,
    commitment: Option<[u8; 32]>,
    artifact: Option<ProofArtifact>,
    public_values: Option<PublicValues>,
    response: Option<VerifyResponse>,
}

/// The mathematical content of an `Attestation`.
pub ghost struct AttestationView {
    pub kind: CertificateKind,
    pub goal: Goal,
    pub document: Seq<u8>,
    pub stage: StageView,
    pub record: Option<RecordView>,
    pub commitment: Option<Seq<u8>>,
    pub artifact: Option<ProofView>,
    pub public_values: Option<PublicValuesView>,
    pub response: Option<(bool, Option<Seq<char>>)>,
}

impl AttestationView {
    /// What holds of every attestation: each stage has the results of the
    /// stages before it, and each result is what its stage computes.
    pub open spec fn wf(self) -> bool {
        &&& self.record matches Some(record) ==> record.kind == self.kind
            && record.fields_present()
        &&& self.commitment matches Some(commitment) ==> self.record is Some && commitment
            == commitment_of(self.record->0)
        &&& self.public_values matches Some(values) ==> self.artifact is Some && decoding_of(
            self.artifact->0.public_values,
        ) == Some(values)
        &&& match self.stage {
            StageView::Received | StageView::Verifying => {
                self.record is None && self.commitment is None && self.artifact is None
                    && self.public_values is None && self.response is None
            },
            StageView::Extracted => {
                self.record is Some && self.commitment is None && self.artifact is None
                    && self.public_values is None && self.response is None
            },
            StageView::Committed | StageView::Proving => {
                self.commitment is Some && self.artifact is None && self.public_values is None
                    && self.response is None
            },
            StageView::Proved => self.artifact is Some && self.response is None,
            StageView::LocallyVerified => self.artifact is Some && self.response is Some,
            StageView::Submitted | StageView::Confirmed => self.public_values is Some,
            StageView::Failed(_) => true,
        }
    }

    /// Whether the attestation is over: no event changes it any more.
    pub open spec fn finished(self) -> bool {
        match self.stage {
            StageView::LocallyVerified | StageView::Confirmed | StageView::Failed(_) => true,
            StageView::Proved => self.goal == Goal::Prove,
            _ => false,
        }
    }

    /// The attestation at another stage.
    pub open spec fn at(self, stage: StageView) -> AttestationView {
        AttestationView { stage, ..self }
    }

    /// The attestation after it failed for the reason given.
    pub open spec fn failed(self, reason: AttestationErrorView) -> AttestationView {
        self.at(StageView::Failed(reason))
    }
}

/// The mathematical content of what a check of a proof gave.
pub open spec fn outcome_view(outcome: Result<(), String>) -> Result<(), Seq<char>> {
    match outcome {
        Ok(_) => Ok(()),
        Err(detail) => Err(detail@),
    }
}

/// The stage that follows the check of the document, and the action with it:
/// extraction runs on the text of the pages, and the request has either its
/// record or a failure.
pub open spec fn after_document(s: AttestationView, document: VerifiedDocument) -> (
    AttestationView,
    Action,
) {
    match fields_in(s.kind, text_of_document(document)) {
        Ok((primary, secondary)) => (
            AttestationView {
                stage: StageView::Extracted,
                record: Some(
                    RecordView { kind: s.kind, primary, secondary, signature: document.signature@ },
                ),
                ..s
            },
            Action::Continue,
        ),
        Err(e) => (s.failed(error_of_extraction(e)), Action::Finish),
    }
}

/// The step of an attestation whose proof exists and is to be registered.
pub open spec fn register_step(s: AttestationView, event: Event) -> (AttestationView, Action) {
    match event {
        Event::Continue => match decoding_of(s.artifact->0.public_values) {
            Some(values) => (AttestationView { public_values: Some(values), ..s }, Action::Submit),
            None => (s.failed(AttestationErrorView::DecodeMalformed), Action::Finish),
        },
        Event::SubmissionDispatched => if s.public_values is Some {
            (s.at(StageView::Submitted), Action::AwaitReceipt)
        } else {
            (s, Action::Wait)
        },
        Event::SubmissionFailed(detail) => if s.public_values is Some {
            (s.failed(AttestationErrorView::SubmissionFailed(detail@)), Action::Finish)
        } else {
            (s, Action::Wait)
        },
        _ => (s, Action::Wait),
    }
}

/// The stage that follows on an event, and the action that the driver is to
/// perform next. An attestation that is over stays as it is and answers
/// `Finish`; an event that does not belong to the stage changes nothing and
/// is answered with `Wait`.
pub open spec fn step_spec(s: AttestationView, event: Event) -> (AttestationView, Action) {
    if s.finished() {
        (s, Action::Finish)
    } else {
        match s.stage {
            StageView::Received => match event {
                Event::Continue => (s.at(StageView::Verifying), Action::VerifyDocument),
                _ => (s, Action::Wait),
            },
            StageView::Verifying => match event {
                Event::DocumentVerified(document) => after_document(s, document),
                Event::DocumentRejected(reason) => (
                    s.failed(AttestationErrorView::DocumentVerificationFailed(reason@)),
                    Action::Finish,
                ),
                _ => (s, Action::Wait),
            },
            StageView::Extracted => match event {
                Event::Continue => (
                    AttestationView {
                        stage: StageView::Committed,
                        commitment: Some(commitment_of(s.record->0)),
                        ..s
                    },
                    Action::Continue,
                ),
                _ => (s, Action::Wait),
            },
            StageView::Committed => match event {
                Event::Continue => (s.at(StageView::Proving), Action::Prove),
                _ => (s, Action::Wait),
            },
            StageView::Proving => match event {
                Event::ProofGenerated(artifact) => (
                    AttestationView { stage: StageView::Proved, artifact: Some(artifact@), ..s },
                    if s.goal == Goal::Prove {
                        Action::Finish
                    } else {
                        Action::Continue
                    },
                ),
                Event::ProvingFailed(detail) => (
                    s.failed(AttestationErrorView::ProofGenerationFailed(detail@)),
                    Action::Finish,
                ),
                _ => (s, Action::Wait),
            },
            StageView::Proved => match s.goal {
                Goal::ProveAndRegister => register_step(s, event),
                _ => match event {
                    Event::Continue => (s, Action::CheckProof),
                    Event::ProofChecked(outcome) => (
                        AttestationView {
                            stage: StageView::LocallyVerified,
                            response: Some(response_of(outcome_view(outcome))),
                            ..s
                        },
                        Action::Finish,
                    ),
                    _ => (s, Action::Wait),
                },
            },
            StageView::Submitted => match event {
                Event::ReceiptReceived(success) => if success {
                    (s.at(StageView::Confirmed), Action::Finish)
                } else {
                    (s.failed(AttestationErrorView::OnChainRevert), Action::Finish)
                },
                Event::SubmissionFailed(detail) => (
                    s.failed(AttestationErrorView::SubmissionFailed(detail@)),
                    Action::Finish,
                ),
                _ => (s, Action::Wait),
            },
            _ => (s, Action::Finish),
        }
    }
}

impl View for Attestation {
    type V = AttestationView;

    closed spec fn view(&self) -> AttestationView {
        AttestationView {
            kind: self.kind,
            goal: self.goal,
            document: self.document@,
            stage: self.stage@,
            record: match self.record {
                Some(record) => Some(record@),
                None => None,
            },
            commitment: match self.commitment {
                Some(commitment) => Some(commitment@),
                None => None,
            },
            artifact: match self.artifact {
                Some(artifact) => Some(artifact@),
                None => None,
            },
            public_values: match self.public_values {
                Some(values) => Some(values@),
                None => None,
            },
            response: match self.response {
                Some(response) => Some((response.valid, response.error.deep_view())),
                None => None,
            },
        }
    }
}

impl Attestation {
    #[verifier::type_invariant]
    spec fn well_formed(self) -> bool {
        self@.wf()
    }

    /// A request that was just received: a document of the kind given, to be
    /// taken as far as the goal says.
    pub fn new(kind: CertificateKind, goal: Goal, document: Vec<u8>) -> (attestation: Attestation)
        ensures
            attestation@ == (AttestationView {
                kind,
                goal,
                document: document@,
                stage: StageView::Received,
                record: None,
                commitment: None,
                artifact: None,
                public_values: None,
                response: None,
            }),
            attestation@.wf(),
    {
        Attestation {
            kind,
            goal,
            document,
            stage: Stage::Received,
            record: None,
            commitment: None,
            artifact: None,
            public_values: None,
            response: None,
        }
    }

    /// A request that starts from a proof that already exists, such as a
    /// request to verify one.
    pub fn from_proof(kind: CertificateKind, goal: Goal, artifact: ProofArtifact) -> (attestation:
        Attestation)
        ensures
            attestation@ == (AttestationView {
                kind,
                goal,
                document: Seq::empty(),
                stage: StageView::Proved,
                record: None,
                commitment: None,
                artifact: Some(artifact@),
                public_values: None,
                response: None,
            }),
            attestation@.wf(),
    {
        Attestation {
            kind,
            goal,
            document: Vec::new(),
            stage: Stage::Proved,
            record: None,
            commitment: None,
            artifact: Some(artifact),
            public_values: None,
            response: None,
        }
    }

    /// Takes one step: the stage that follows on `event`, and the action
    /// that the driver is to perform next.
    #[verifier::rlimit(40)]
    pub fn step(self, event: Event) -> (next: (Attestation, Action))
        ensures
            (next.0@, next.1) == step_spec(self@, event),
            next.0@.wf(),
    {
        proof {
            use_type_invariant(&self);
        }
        let ghost before = self@;
        let Attestation {
            kind,
            goal,
            document,
            stage,
            record,
            commitment,
            artifact,
            public_values,
            response,
        } = self;
        let mut record = record;
        let mut commitment = commitment;
        let mut artifact = artifact;
        let mut public_values = public_values;
        let mut response = response;
        let mut moved: Option<Stage> = None;
        let mut action = Action::Wait;
        match &stage {
            Stage::Received => match event {
                Event::Continue => {
                    moved = Some(Stage::Verifying);
                    action = Action::VerifyDocument;
                },
                _ => {},
            },
            Stage::Verifying => match event {
                Event::DocumentVerified(verified) => match extract_record(kind, verified) {
                    Ok(extracted) => {
                        record = Some(extracted);
                        moved = Some(Stage::Extracted);
                        action = Action::Continue;
                    },
                    Err(e) => {
                        moved = Some(Stage::Failed(AttestationError::from_extraction(e)));
                        action = Action::Finish;
                    },
                },
                Event::DocumentRejected(reason) => {
                    moved = Some(
                        Stage::Failed(AttestationError::DocumentVerificationFailed(reason)),
                    );
                    action = Action::Finish;
                },
                _ => {},
            },
            Stage::Extracted => match event {
                Event::Continue => {
                    match &record {
                        Some(extracted) => {
                            commitment = Some(commit(extracted));
                        },
                        None => {},
                    }
                    moved = Some(Stage::Committed);
                    action = Action::Continue;
                },
                _ => {},
            },
            Stage::Committed => match event {
                Event::Continue => {
                    moved = Some(Stage::Proving);
                    action = Action::Prove;
                },
                _ => {},
            },
            Stage::Proving => match event {
                Event::ProofGenerated(generated) => {
                    artifact = Some(generated);
                    moved = Some(Stage::Proved);
                    action = match goal {
                        Goal::Prove => Action::Finish,
                        _ => Action::Continue,
                    };
                },
                Event::ProvingFailed(detail) => {
                    moved = Some(Stage::Failed(AttestationError::ProofGenerationFailed(detail)));
                    action = Action::Finish;
                },
                _ => {},
            },
            Stage::Proved => match goal {
                Goal::Prove => {
                    action = Action::Finish;
                },
                Goal::ProveAndVerify => match event {
                    Event::Continue => {
                        action = Action::CheckProof;
                    },
                    Event::ProofChecked(outcome) => {
                        response = Some(verify_response(outcome));
                        moved = Some(Stage::LocallyVerified);
                        action = Action::Finish;
                    },
                    _ => {},
                },
                Goal::ProveAndRegister => match event {
                    Event::Continue => {
                        let decoded = match &artifact {
                            Some(generated) => decode(generated.public_values.as_slice()),
                            None => Err(AttestationError::DecodeMalformed),
                        };
                        match decoded {
                            Ok(values) => {
                                public_values = Some(values);
                                action = Action::Submit;
                            },
                            Err(e) => {
                                moved = Some(Stage::Failed(e));
                                action = Action::Finish;
                            },
                        }
                    },
                    Event::SubmissionDispatched => {
                        if public_values.is_some() {
                            moved = Some(Stage::Submitted);
                            action = Action::AwaitReceipt;
                        }
                    },
                    Event::SubmissionFailed(detail) => {
                        if public_values.is_some() {
                            moved = Some(
                                Stage::Failed(AttestationError::SubmissionFailed(detail)),
                            );
                            action = Action::Finish;
                        }
                    },
                    _ => {},
                },
            },
            Stage::Submitted => match event {
                Event::ReceiptReceived(success) => {
                    if success {
                        moved = Some(Stage::Confirmed);
                    } else {
                        moved = Some(Stage::Failed(AttestationError::OnChainRevert));
                    }
                    action = Action::Finish;
                },
                Event::SubmissionFailed(detail) => {
                    moved = Some(Stage::Failed(AttestationError::SubmissionFailed(detail)));
                    action = Action::Finish;
                },
                _ => {},
            },
            Stage::LocallyVerified => {
                action = Action::Finish;
            },
            Stage::Confirmed => {
                action = Action::Finish;
            },
            Stage::Failed(_) => {
                action = Action::Finish;
            },
        }
        let stage = match moved {
            Some(next) => next,
            None => stage,
        };
        let next = Attestation {
            kind,
            goal,
            document,
            stage,
            record,
            commitment,
            artifact,
            public_values,
            response,
        };
        assert(next@ == step_spec(before, event).0);
        (next, action)
    }

    /// The kind of certificate that the request is about.
    pub fn kind(&self) -> (kind: CertificateKind)
        ensures
            kind == self@.kind,
    {
        self.kind
    }

    /// How far the request is to be taken.
    pub fn goal(&self) -> (goal: Goal)
        ensures
            goal == self@.goal,
    {
        self.goal
    }

    /// The document's bytes as they were received. They are what the
    /// verifier of documents and the proving service are handed.
    pub fn document(&self) -> (document: &Vec<u8>)
        ensures
            document@ == self@.document,
    {
        &self.document
    }

    /// The stage that the request has reached.
    pub fn stage(&self) -> (stage: &Stage)
        ensures
            stage@ == self@.stage,
    {
        &self.stage
    }

    /// The record that extraction gave, once there is one.
    pub fn record(&self) -> (record: &Option<CertificateRecord>)
        ensures
            match record {
                Some(r) => self@.record == Some(r@),
                None => self@.record is None,
            },
    {
        &self.record
    }

    /// The commitment to the record, once there is one.
    pub fn commitment(&self) -> (commitment: Option<[u8; 32]>)
        ensures
            match commitment {
                Some(c) => self@.commitment == Some(c@),
                None => self@.commitment is None,
            },
    {
        self.commitment
    }

    /// The proof, once there is one.
    pub fn artifact(&self) -> (artifact: &Option<ProofArtifact>)
        ensures
            match artifact {
                Some(a) => self@.artifact == Some(a@),
                None => self@.artifact is None,
            },
    {
        &self.artifact
    }

    /// The decoded public values of the proof, once they were read for
    /// submission.
    pub fn public_values(&self) -> (values: &Option<PublicValues>)
        ensures
            match values {
                Some(v) => self@.public_values == Some(v@),
                None => self@.public_values is None,
            },
    {
        &self.public_values
    }

    /// The answer of the local verification, once there is one.
    pub fn response(&self) -> (response: &Option<VerifyResponse>)
        ensures
            match response {
                Some(r) => self@.response == Some((r.valid, r.error.deep_view())),
                None => self@.response is None,
            },
    {
        &self.response
    }
}

/// The attestation after a series of events, taken in order.
pub open spec fn run(s: AttestationView, events: Seq<Event>) -> AttestationView
    decreases events.len(),
{
    if events.len() == 0 {
        s
    } else {
        run(step_spec(s, events.first()).0, events.drop_first())
    }
}

/// The actions that a series of events is answered with, in order.
pub open spec fn actions(s: AttestationView, events: Seq<Event>) -> Seq<Action>
    decreases events.len(),
{
    if events.len() == 0 {
        Seq::empty()
    } else {
        seq![step_spec(s, events.first()).1] + actions(
            step_spec(s, events.first()).0,
            events.drop_first(),
        )
    }
}

/// Every step leaves a well-formed attestation well formed.
pub proof fn lemma_step_keeps_wf(s: AttestationView, event: Event)
    requires
        s.wf(),
    ensures
        step_spec(s, event).0.wf(),
{
    if let Event::DocumentVerified(document) = event {
        lemma_fields_are_never_blank(s.kind, text_of_document(document));
    }
}

/// An attestation moves in one direction: a step either leaves the stage as
/// it is or takes it to a later one, so no stage is ever entered twice.
pub proof fn lemma_step_moves_forward(s: AttestationView, event: Event)
    ensures
        step_spec(s, event).0.stage == s.stage || step_spec(s, event).0.stage.rank()
            > s.stage.rank(),
{
}

/// An attestation that is over stays as it is, whatever is reported to it,
/// and asks for nothing more.
pub proof fn lemma_finished_is_final(s: AttestationView, events: Seq<Event>)
    requires
        s.finished(),
    ensures
        run(s, events) == s,
        actions(s, events).len() == events.len(),
        forall|i: int| 0 <= i < events.len() ==> actions(s, events)[i] == Action::Finish,
    decreases events.len(),
{
    if events.len() > 0 {
        lemma_finished_is_final(s, events.drop_first());
    }
}

/// A failure of the proving service ends the attestation: the stage is the
/// failure with the service's reason, the driver is told to finish, and
/// nothing that is reported afterwards changes the stage or asks for a
/// submission.
pub proof fn lemma_proving_failure_is_final(
    s: AttestationView,
    detail: String,
    later: Seq<Event>,
)
    requires
        s.stage == StageView::Proving,
    ensures
        step_spec(s, Event::ProvingFailed(detail)) == (
            s.failed(AttestationErrorView::ProofGenerationFailed(detail@)),
            Action::Finish,
        ),
        run(step_spec(s, Event::ProvingFailed(detail)).0, later).stage == StageView::Failed(
            AttestationErrorView::ProofGenerationFailed(detail@),
        ),
        !actions(step_spec(s, Event::ProvingFailed(detail)).0, later).contains(Action::Submit),
{
    let failed = step_spec(s, Event::ProvingFailed(detail)).0;
    lemma_finished_is_final(failed, later);
}

/// A series of events is taken one at a time, the first one first.
pub proof fn lemma_run_first(s: AttestationView, first: Event, rest: Seq<Event>)
    ensures
        run(s, seq![first] + rest) == run(step_spec(s, first).0, rest),
        actions(s, seq![first] + rest) == seq![step_spec(s, first).1] + actions(
            step_spec(s, first).0,
            rest,
        ),
{
    let events = seq![first] + rest;
    assert(events.first() == first);
    assert(events.drop_first() =~= rest);
}

/// A request whose document holds both fields, whose proof carries
/// well-formed public values and whose receipt reports success is
/// confirmed, and is asked in turn to verify the document, to prove, to
/// submit and to wait for the receipt.
#[verifier::rlimit(40)]
pub proof fn lemma_registration_is_confirmed(
    start: AttestationView,
    document: VerifiedDocument,
    artifact: ProofArtifact,
)
    requires
        start.wf(),
        start.stage == StageView::Received,
        start.goal == Goal::ProveAndRegister,
        fields_in(start.kind, text_of_document(document)) is Ok,
        decoding_of(artifact.public_values@) is Some,
    ensures
        run(
            start,
            seq![
                Event::Continue,
                Event::DocumentVerified(document),
                Event::Continue,
                Event::Continue,
                Event::ProofGenerated(artifact),
                Event::Continue,
                Event::SubmissionDispatched,
                Event::ReceiptReceived(true),
            ],
        ).stage == StageView::Confirmed,
        actions(
            start,
            seq![
                Event::Continue,
                Event::DocumentVerified(document),
                Event::Continue,
                Event::Continue,
                Event::ProofGenerated(artifact),
                Event::Continue,
                Event::SubmissionDispatched,
                Event::ReceiptReceived(true),
            ],
        ) == seq![
            Action::VerifyDocument,
            Action::Continue,
            Action::Continue,
            Action::Prove,
            Action::Continue,
            Action::Submit,
            Action::AwaitReceipt,
            Action::Finish,
        ],
{
    let verified = Event::DocumentVerified(document);
    let generated = Event::ProofGenerated(artifact);
    let receipt = Event::ReceiptReceived(true);
    let s1 = step_spec(start, Event::Continue).0;
    assert(s1.stage == StageView::Verifying && step_spec(start, Event::Continue).1
        == Action::VerifyDocument);
    let s2 = step_spec(s1, verified).0;
    assert(s2.stage == StageView::Extracted && s2.goal == start.goal && step_spec(s1, verified).1
        == Action::Continue);
    let s3 = step_spec(s2, Event::Continue).0;
    assert(s3.stage == StageView::Committed && s3.goal == start.goal && step_spec(
        s2,
        Event::Continue,
    ).1 == Action::Continue);
    let s4 = step_spec(s3, Event::Continue).0;
    assert(s4.stage == StageView::Proving && s4.goal == start.goal && step_spec(
        s3,
        Event::Continue,
    ).1 == Action::Prove);
    let s5 = step_spec(s4, generated).0;
    assert(s5.stage == StageView::Proved && s5.goal == start.goal && s5.artifact == Some(
        artifact@,
    ) && step_spec(s4, generated).1 == Action::Continue);
    let s6 = step_spec(s5, Event::Continue).0;
    assert(s6.stage == StageView::Proved && s6.goal == start.goal && s6.public_values is Some
        && step_spec(s5, Event::Continue).1 == Action::Submit);
    let s7 = step_spec(s6, Event::SubmissionDispatched).0;
    assert(s7.stage == StageView::Submitted && step_spec(s6, Event::SubmissionDispatched).1
        == Action::AwaitReceipt);
    let s8 = step_spec(s7, receipt).0;
    assert(s8.stage == StageView::Confirmed && step_spec(s7, receipt).1 == Action::Finish);

    let e7 = seq![receipt];
    let e6 = seq![Event::SubmissionDispatched] + e7;
    let e5 = seq![Event::Continue] + e6;
    let e4 = seq![generated] + e5;
    let e3 = seq![Event::Continue] + e4;
    let e2 = seq![Event::Continue] + e3;
    let e1 = seq![verified] + e2;
    let e0 = seq![Event::Continue] + e1;
    lemma_run_first(s7, receipt, Seq::empty());
    assert(e7 =~= seq![receipt] + Seq::<Event>::empty());
    lemma_run_first(s6, Event::SubmissionDispatched, e7);
    lemma_run_first(s5, Event::Continue, e6);
    lemma_run_first(s4, generated, e5);
    lemma_run_first(s3, Event::Continue, e4);
    lemma_run_first(s2, Event::Continue, e3);
    lemma_run_first(s1, verified, e2);
    lemma_run_first(start, Event::Continue, e1);
    assert(e0 =~= seq![
        Event::Continue,
        verified,
        Event::Continue,
        Event::Continue,
        generated,
        Event::Continue,
        Event::SubmissionDispatched,
        receipt,
    ]);
    assert(actions(start, e0) =~= seq![
        Action::VerifyDocument,
        Action::Continue,
        Action::Continue,
        Action::Prove,
        Action::Continue,
        Action::Submit,
        Action::AwaitReceipt,
        Action::Finish,
    ]);
}

/// A submission is asked for only when the proof exists, the request is to
/// be registered, and the proof's public values are a well-formed record.
pub proof fn lemma_submit_needs_public_values(s: AttestationView, event: Event)
    requires
        s.wf(),
        step_spec(s, event).1 == Action::Submit,
    ensures
        s.stage == StageView::Proved,
        s.goal == Goal::ProveAndRegister,
        s.artifact is Some,
        step_spec(s, event).0.public_values == decoding_of(s.artifact->0.public_values),
        step_spec(s, event).0.public_values is Some,
{
}

/// The stage `Submitted` is entered only from `Proved`, and `Confirmed` only
/// from `Submitted` on a receipt that reports success.
pub proof fn lemma_confirmation_needs_receipt(s: AttestationView, event: Event)
    requires
        step_spec(s, event).0.stage == StageView::Confirmed,
        s.stage != StageView::Confirmed,
    ensures
        s.stage == StageView::Submitted,
        event == Event::ReceiptReceived(true),
{
}

} // verus!
