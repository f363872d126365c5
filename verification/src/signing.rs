//! Signing a plain text message with a relayer's key: the order of the
//! checks, what is signed, recorded and answered. The handler performs each
//! action and feeds back its outcome; this module decides the next action.

use vstd::prelude::*;
use vstd::string::*;
use alloy::primitives::{Address, Signature};

verus! {

#[verifier::external_type_specification]
#[verifier::external_body]
pub struct ExAddress(Address);

#[verifier::external_type_specification]
#[verifier::external_body]
pub struct ExSignature(Signature);

/// The body of a request to sign a text.
#[derive(Debug)]
pub struct SignTextDto {
    pub text: String,
}

/// An EVM account address.
#[derive(Clone, Copy, Debug)]
pub struct EvmAddress(pub Address);

/// A relayer, by the 128-bit value of its UUID.
#[derive(Clone, Copy, Debug, PartialEq, Eq, Structural)]
pub struct RelayerId(pub u128);

/// An error answered to the HTTP caller: a status and a message.
#[derive(Debug)]
pub struct HttpError {
    pub status: u16,
    pub message: String,
}

/// The relayer that a request names, as loaded with its provider.
#[derive(Clone, Copy, Debug)]
pub struct RelayerContext {
    pub address: EvmAddress,
    pub chain_id: u64,
    pub paused: bool,
    pub wallet_index: u32,
    /// The chain of the relayer's provider, under which the signature is
    /// recorded and announced.
    pub provider_chain_id: u64,
}

/// What is stored of a signed text.
#[derive(Debug)]
pub struct RecordSignedTextRequest {
    pub relayer_id: RelayerId,
    pub message: String,
    pub signature: Signature,
    pub chain_id: u64,
}

/// What the webhooks are told of a signed text.
#[derive(Debug)]
pub struct TextSignedNotice {
    pub relayer_id: RelayerId,
    pub chain_id: u64,
    pub message: String,
    pub signature: Signature,
}

/// The answer to a successful request.
#[derive(Debug)]
pub struct SignTextResult {
    pub message_signed: String,
    pub signature: Signature,
    pub signed_by: EvmAddress,
}

/// Where a request stands.
#[derive(Clone, Copy, Debug)]
pub enum SignTextStage {
    CheckingBasicAuth,
    LoadingRelayer,
    CheckingRelayerAuth { relayer: RelayerContext },
    ReservingRateLimit { relayer: RelayerContext },
    CheckingPersonalSigning { relayer: RelayerContext, reserved: bool },
    Signing { relayer: RelayerContext, reserved: bool },
    Recording { relayer: RelayerContext, reserved: bool, signature: Signature },
    Done,
}

/// The outcome of the last action, fed back by the handler.
#[derive(Debug)]
pub enum SignTextEvent {
    /// Whether the caller may use basic authentication at all.
    BasicAuthChecked(Result<(), HttpError>),
    /// The relayer, if one has the request's id.
    RelayerLoaded(Result<Option<RelayerContext>, HttpError>),
    /// Whether the caller's credentials cover the relayer.
    RelayerAuthChecked(Result<(), HttpError>),
    /// The rate-limit check; `true` when it made a reservation to commit.
    RateLimitReserved(Result<bool, HttpError>),
    /// Whether the relayer may sign personal messages.
    PersonalSigningChecked(Result<(), HttpError>),
    /// The signature made by the relayer's wallet.
    TextSigned(Result<Signature, HttpError>),
    /// Whether the signed text was stored.
    SignedTextRecorded(Result<(), HttpError>),
}

/// What the handler is to do next.
#[derive(Debug)]
pub enum SignTextAction {
    /// Check that the caller may use basic authentication at all.
    CheckBasicAuth,
    /// Load the relayer and its provider.
    LoadRelayer { relayer_id: RelayerId },
    /// Check the caller's credentials against the relayer.
    CheckRelayerAuth { address: EvmAddress, chain_id: u64 },
    /// Check the rate limit of signing, reserving a slot.
    ReserveRateLimit { relayer_id: RelayerId },
    /// Check that the relayer may sign personal messages.
    CheckPersonalSigning { address: EvmAddress, chain_id: u64 },
    /// Sign the text with the wallet at this index.
    SignText { wallet_index: u32, text: String },
    /// Store the signed text.
    RecordSignedText { record: RecordSignedTextRequest },
    /// Announce to the webhooks if asked, commit the rate-limit reservation
    /// if asked, and answer with the result.
    Respond { webhook: Option<TextSignedNotice>, commit_reservation: bool, result: SignTextResult },
    /// Answer with the error; any reservation is dropped uncommitted.
    Reject { error: HttpError },
}

/// One request to sign a text, from its first check to its answer.
pub struct SignTextFlow {
    relayer_id: RelayerId,
    text: String,
    webhooks_enabled: bool,
    stage: SignTextStage,
}

/// `error` has this status and message.
pub open spec fn is_http_error(error: HttpError, status: u16, message: Seq<char>) -> bool {
    error.status == status && error.message@ == message
}

/// The event is the outcome of the action that the stage waits for.
pub open spec fn expects(stage: SignTextStage, event: SignTextEvent) -> bool {
    match stage {
        SignTextStage::CheckingBasicAuth => event is BasicAuthChecked,
        SignTextStage::LoadingRelayer => event is RelayerLoaded,
        SignTextStage::CheckingRelayerAuth { .. } => event is RelayerAuthChecked,
        SignTextStage::ReservingRateLimit { .. } => event is RateLimitReserved,
        SignTextStage::CheckingPersonalSigning { .. } => event is PersonalSigningChecked,
        SignTextStage::Signing { .. } => event is TextSigned,
        SignTextStage::Recording { .. } => event is SignedTextRecorded,
        SignTextStage::Done => false,
    }
}

/// How far a stage is along the flow.
pub open spec fn stage_rank(stage: SignTextStage) -> nat {
    match stage {
        SignTextStage::CheckingBasicAuth => 0,
        SignTextStage::LoadingRelayer => 1,
        SignTextStage::CheckingRelayerAuth { .. } => 2,
        SignTextStage::ReservingRateLimit { .. } => 3,
        SignTextStage::CheckingPersonalSigning { .. } => 4,
        SignTextStage::Signing { .. } => 5,
        SignTextStage::Recording { .. } => 6,
        SignTextStage::Done => 7,
    }
}

/// A failed check ends the request with its error.
pub open spec fn rejects_with(next: SignTextStage, action: SignTextAction, error: HttpError) -> bool {
    next is Done && action == (SignTextAction::Reject { error })
}

/// One step of a request for `relayer_id` to sign `text`: in `stage`, the
/// outcome `event` leads to `next` and the handler's next `action`.
pub open spec fn sign_text_step(
    relayer_id: RelayerId,
    text: String,
    webhooks_enabled: bool,
    stage: SignTextStage,
    event: SignTextEvent,
    next: SignTextStage,
    action: SignTextAction,
) -> bool {
    match (stage, event) {
        (SignTextStage::CheckingBasicAuth, SignTextEvent::BasicAuthChecked(outcome)) => match outcome {
            Err(error) => rejects_with(next, action, error),
            Ok(_) => next is LoadingRelayer && action == (SignTextAction::LoadRelayer { relayer_id }),
        },
        (SignTextStage::LoadingRelayer, SignTextEvent::RelayerLoaded(outcome)) => match outcome {
            Err(error) => rejects_with(next, action, error),
            Ok(None) => next is Done && (action matches SignTextAction::Reject { error }
                && is_http_error(error, 404, "Relayer does not exist"@)),
            Ok(Some(relayer)) => next == (SignTextStage::CheckingRelayerAuth { relayer })
                && action == (SignTextAction::CheckRelayerAuth {
                address: relayer.address,
                chain_id: relayer.chain_id,
            }),
        },
        (
            SignTextStage::CheckingRelayerAuth { relayer },
            SignTextEvent::RelayerAuthChecked(outcome),
        ) => match outcome {
            Err(error) => rejects_with(next, action, error),
            Ok(_) => if relayer.paused {
                next is Done && (action matches SignTextAction::Reject { error }
                    && is_http_error(error, 403, "Relayer is paused"@))
            } else {
                next == (SignTextStage::ReservingRateLimit { relayer }) && action == (
                SignTextAction::ReserveRateLimit { relayer_id })
            },
        },
        (
            SignTextStage::ReservingRateLimit { relayer },
            SignTextEvent::RateLimitReserved(outcome),
        ) => match outcome {
            Err(error) => rejects_with(next, action, error),
            Ok(reserved) => next == (SignTextStage::CheckingPersonalSigning { relayer, reserved })
                && action == (SignTextAction::CheckPersonalSigning {
                address: relayer.address,
                chain_id: relayer.chain_id,
            }),
        },
        (
            SignTextStage::CheckingPersonalSigning { relayer, reserved },
            SignTextEvent::PersonalSigningChecked(outcome),
        ) => match outcome {
            Err(error) => rejects_with(next, action, error),
            Ok(_) => next == (SignTextStage::Signing { relayer, reserved }) && action == (
            SignTextAction::SignText { wallet_index: relayer.wallet_index, text }),
        },
        (SignTextStage::Signing { relayer, reserved }, SignTextEvent::TextSigned(outcome)) => match outcome {
            Err(error) => rejects_with(next, action, error),
            Ok(signature) => next == (SignTextStage::Recording { relayer, reserved, signature })
                && action == (SignTextAction::RecordSignedText {
                record: RecordSignedTextRequest {
                    relayer_id,
                    message: text,
                    signature,
                    chain_id: relayer.provider_chain_id,
                },
            }),
        },
        (
            SignTextStage::Recording { relayer, reserved, signature },
            SignTextEvent::SignedTextRecorded(outcome),
        ) => match outcome {
            Err(error) => rejects_with(next, action, error),
            Ok(_) => next is Done && action == (SignTextAction::Respond {
                webhook: if webhooks_enabled {
                    Some(
                        TextSignedNotice {
                            relayer_id,
                            chain_id: relayer.provider_chain_id,
                            message: text,
                            signature,
                        },
                    )
                } else {
                    None
                },
                commit_reservation: reserved,
                result: SignTextResult {
                    message_signed: text,
                    signature,
                    signed_by: relayer.address,
                },
            }),
        },
        _ => false,
    }
}

/// Every step moves the request forward, and an answer (an error or a
/// result) ends it: a request is answered after at most seven outcomes.
pub proof fn lemma_sign_text_progress(
    relayer_id: RelayerId,
    text: String,
    webhooks_enabled: bool,
    stage: SignTextStage,
    event: SignTextEvent,
    next: SignTextStage,
    action: SignTextAction,
)
    requires
        sign_text_step(relayer_id, text, webhooks_enabled, stage, event, next, action),
    ensures
        stage_rank(stage) < stage_rank(next),
        stage_rank(next) <= 7,
        action is Reject || action is Respond <==> next is Done,
        next is Done ==> forall|later: SignTextEvent| !expects(next, later),
{
}

/// The outcome of `action`, as the handler reports it.
pub open spec fn reports_outcome_of(action: SignTextAction, event: SignTextEvent) -> bool {
    match action {
        SignTextAction::CheckBasicAuth => event is BasicAuthChecked,
        SignTextAction::LoadRelayer { .. } => event is RelayerLoaded,
        SignTextAction::CheckRelayerAuth { .. } => event is RelayerAuthChecked,
        SignTextAction::ReserveRateLimit { .. } => event is RateLimitReserved,
        SignTextAction::CheckPersonalSigning { .. } => event is PersonalSigningChecked,
        SignTextAction::SignText { .. } => event is TextSigned,
        SignTextAction::RecordSignedText { .. } => event is SignedTextRecorded,
        SignTextAction::Respond { .. } => false,
        SignTextAction::Reject { .. } => false,
    }
}

/// The flow never stalls: every stage but the end waits for an outcome, any
/// outcome it takes leads to a step, and after each action that is not an
/// answer the flow waits for exactly that action's outcome, success or
/// failure alike. The first action, `CheckBasicAuth`, is awaited at the
/// start.
pub proof fn lemma_flow_awaits_each_outcome(
    relayer_id: RelayerId,
    text: String,
    webhooks_enabled: bool,
    stage: SignTextStage,
    event: SignTextEvent,
    next: SignTextStage,
    action: SignTextAction,
    outcome: SignTextEvent,
)
    ensures
        expects(SignTextStage::CheckingBasicAuth, outcome) <==> reports_outcome_of(
            SignTextAction::CheckBasicAuth,
            outcome,
        ),
        !(stage is Done) ==> exists|e: SignTextEvent| expects(stage, e),
        stage is Done ==> !expects(stage, outcome),
        sign_text_step(relayer_id, text, webhooks_enabled, stage, event, next, action) ==> {
            &&& expects(stage, event)
            &&& (action is Respond || action is Reject) ==> next is Done
            &&& !(action is Respond || action is Reject) ==> (expects(next, outcome)
                <==> reports_outcome_of(action, outcome))
        },
        stage matches SignTextStage::Recording { .. } ==> expects(
            stage,
            SignTextEvent::SignedTextRecorded(Ok(())),
        ),
{
    match stage {
        SignTextStage::CheckingBasicAuth => {
            assert(expects(stage, SignTextEvent::BasicAuthChecked(Ok(()))));
        },
        SignTextStage::LoadingRelayer => {
            assert(expects(stage, SignTextEvent::RelayerLoaded(Ok(None))));
        },
        SignTextStage::CheckingRelayerAuth { .. } => {
            assert(expects(stage, SignTextEvent::RelayerAuthChecked(Ok(()))));
        },
        SignTextStage::ReservingRateLimit { .. } => {
            assert(expects(stage, SignTextEvent::RateLimitReserved(Ok(true))));
        },
        SignTextStage::CheckingPersonalSigning { .. } => {
            assert(expects(stage, SignTextEvent::PersonalSigningChecked(Ok(()))));
        },
        SignTextStage::Signing { .. } => {
            assert(expects(stage, SignTextEvent::TextSigned(Err(arbitrary()))));
        },
        SignTextStage::Recording { .. } => {
            assert(expects(stage, SignTextEvent::SignedTextRecorded(Ok(()))));
        },
        SignTextStage::Done => {},
    }
}

/// `stages`, `events` and `actions` are a run of the flow: each event leads
/// from one stage to the next with the action between them.
pub open spec fn is_run(
    relayer_id: RelayerId,
    text: String,
    webhooks_enabled: bool,
    stages: Seq<SignTextStage>,
    events: Seq<SignTextEvent>,
    actions: Seq<SignTextAction>,
) -> bool {
    &&& stages.len() == events.len() + 1
    &&& actions.len() == events.len()
    &&& forall|i: int|
        #![trigger events[i]]
        0 <= i < events.len() ==> sign_text_step(
            relayer_id,
            text,
            webhooks_enabled,
            stages[i],
            events[i],
            stages[i + 1],
            actions[i],
        )
}

/// The action that the flow takes when the check of `stage` passes.
pub open spec fn passes_to(stage: SignTextStage, action: SignTextAction) -> bool {
    match stage {
        SignTextStage::CheckingBasicAuth => action is LoadRelayer,
        SignTextStage::LoadingRelayer => action is CheckRelayerAuth,
        SignTextStage::CheckingRelayerAuth { .. } => action is ReserveRateLimit,
        SignTextStage::ReservingRateLimit { .. } => action is CheckPersonalSigning,
        SignTextStage::CheckingPersonalSigning { .. } => action is SignText,
        SignTextStage::Signing { .. } => action is RecordSignedText,
        SignTextStage::Recording { .. } => action is Respond,
        SignTextStage::Done => false,
    }
}

proof fn lemma_step_passes(
    relayer_id: RelayerId,
    text: String,
    webhooks_enabled: bool,
    stage: SignTextStage,
    event: SignTextEvent,
    next: SignTextStage,
    action: SignTextAction,
)
    requires
        sign_text_step(relayer_id, text, webhooks_enabled, stage, event, next, action),
        !(action is Reject),
    ensures
        passes_to(stage, action),
        action is Respond || stage_rank(next) == stage_rank(stage) + 1,
{
}

/// Along a run from the start whose first `k` actions pass their checks,
/// the `i`-th stage is the `i`-th of the flow.
proof fn lemma_run_ranks(
    relayer_id: RelayerId,
    text: String,
    webhooks_enabled: bool,
    stages: Seq<SignTextStage>,
    events: Seq<SignTextEvent>,
    actions: Seq<SignTextAction>,
    k: int,
)
    requires
        is_run(relayer_id, text, webhooks_enabled, stages, events, actions),
        stages[0] is CheckingBasicAuth,
        0 <= k <= actions.len(),
        forall|i: int| 0 <= i < k ==> !(#[trigger] actions[i] is Reject) && !(actions[i] is Respond),
    ensures
        forall|i: int| 0 <= i <= k ==> stage_rank(#[trigger] stages[i]) == i,
        forall|i: int| 0 <= i < k ==> passes_to(stages[i], #[trigger] actions[i]),
    decreases k,
{
    if k > 0 {
        lemma_run_ranks(relayer_id, text, webhooks_enabled, stages, events, actions, k - 1);
        assert(sign_text_step(
            relayer_id,
            text,
            webhooks_enabled,
            stages[k - 1],
            events[k - 1],
            stages[k],
            actions[k - 1],
        ));
        lemma_step_passes(
            relayer_id,
            text,
            webhooks_enabled,
            stages[k - 1],
            events[k - 1],
            stages[k],
            actions[k - 1],
        );
    }
}

/// A request that is answered with a result went through every check in
/// order: the basic-authentication check, loading the relayer, the
/// relayer's credentials, the rate limit, the personal-signing check, the
/// signature and its record, each passing, in exactly seven steps.
pub proof fn lemma_successful_run(
    relayer_id: RelayerId,
    text: String,
    webhooks_enabled: bool,
    stages: Seq<SignTextStage>,
    events: Seq<SignTextEvent>,
    actions: Seq<SignTextAction>,
)
    requires
        is_run(relayer_id, text, webhooks_enabled, stages, events, actions),
        stages[0] is CheckingBasicAuth,
        actions.len() > 0,
        actions.last() is Respond,
    ensures
        actions.len() == 7,
        actions[0] is LoadRelayer,
        actions[1] is CheckRelayerAuth,
        actions[2] is ReserveRateLimit,
        actions[3] is CheckPersonalSigning,
        actions[4] is SignText,
        actions[5] is RecordSignedText,
        forall|i: int| 0 <= i < actions.len() ==> passes_to(stages[i], #[trigger] actions[i]),
{
    let n = actions.len() as int;
    assert forall|i: int| 0 <= i < n - 1 implies !(#[trigger] actions[i] is Reject) && !(
    actions[i] is Respond) by {
        assert(sign_text_step(
            relayer_id,
            text,
            webhooks_enabled,
            stages[i],
            events[i],
            stages[i + 1],
            actions[i],
        ));
        assert(sign_text_step(
            relayer_id,
            text,
            webhooks_enabled,
            stages[i + 1],
            events[i + 1],
            stages[i + 2],
            actions[i + 1],
        ));
    }
    lemma_run_ranks(relayer_id, text, webhooks_enabled, stages, events, actions, n - 1);
    assert(actions[n - 1] == actions.last());
    assert(sign_text_step(
        relayer_id,
        text,
        webhooks_enabled,
        stages[n - 1],
        events[n - 1],
        stages[n],
        actions[n - 1],
    ));
    lemma_step_passes(
        relayer_id,
        text,
        webhooks_enabled,
        stages[n - 1],
        events[n - 1],
        stages[n],
        actions[n - 1],
    );
    assert(stage_rank(stages[n - 1]) == n - 1);
    assert(stage_rank(stages[0]) == 0);
    assert(stage_rank(stages[1]) == 1);
    assert(stage_rank(stages[2]) == 2);
    assert(stage_rank(stages[3]) == 3);
    assert(stage_rank(stages[4]) == 4);
    assert(stage_rank(stages[5]) == 5);
}

impl SignTextFlow {
    /// A text is signed only with a relayer that passed every check and is
    /// not paused, with that relayer's wallet, and only the request's text.
    pub proof fn lemma_signs_only_checked_text(
        &self,
        event: SignTextEvent,
        next: SignTextStage,
        action: SignTextAction,
    )
        requires
            self.well_formed(),
            sign_text_step(
                self.relayer_id(),
                self.text(),
                self.webhooks_enabled(),
                self.stage(),
                event,
                next,
                action,
            ),
            action is SignText,
        ensures
            self.stage() matches SignTextStage::CheckingPersonalSigning { relayer, reserved } && {
                &&& !relayer.paused
                &&& action == (SignTextAction::SignText {
                    wallet_index: relayer.wallet_index,
                    text: self.text(),
                })
                &&& next == (SignTextStage::Signing { relayer, reserved })
            },
            event matches SignTextEvent::PersonalSigningChecked(outcome) && outcome is Ok,
    {
    }

    /// A paused relayer is refused once the caller's credentials for it are
    /// checked, and no later stage holds a paused relayer.
    pub proof fn lemma_paused_relayer_refused(
        &self,
        event: SignTextEvent,
        next: SignTextStage,
        action: SignTextAction,
    )
        requires
            self.well_formed(),
            self.stage() matches SignTextStage::CheckingRelayerAuth { relayer } && relayer.paused,
            sign_text_step(
                self.relayer_id(),
                self.text(),
                self.webhooks_enabled(),
                self.stage(),
                event,
                next,
                action,
            ),
        ensures
            next is Done,
            action is Reject,
            event matches SignTextEvent::RelayerAuthChecked(Ok(_)) ==> action matches SignTextAction::Reject { error }
                && is_http_error(error, 403, "Relayer is paused"@),
    {
    }

    /// The answer to a successful request holds the request's text, the
    /// signature that was recorded and the relayer's address; the
    /// reservation is committed exactly when one was made, and the webhooks
    /// hear of the same text and signature exactly when they are set up.
    pub proof fn lemma_response_matches_record(
        &self,
        event: SignTextEvent,
        next: SignTextStage,
        action: SignTextAction,
    )
        requires
            self.well_formed(),
            sign_text_step(
                self.relayer_id(),
                self.text(),
                self.webhooks_enabled(),
                self.stage(),
                event,
                next,
                action,
            ),
            action is Respond,
        ensures
            self.stage() matches SignTextStage::Recording { relayer, reserved, signature } && {
                &&& !relayer.paused
                &&& action->result == (SignTextResult {
                    message_signed: self.text(),
                    signature,
                    signed_by: relayer.address,
                })
                &&& action->commit_reservation == reserved
                &&& (action->webhook is Some <==> self.webhooks_enabled())
                &&& (action->webhook matches Some(notice) ==> notice.message == self.text()
                    && notice.signature == signature && notice.relayer_id == self.relayer_id()
                    && notice.chain_id == relayer.provider_chain_id)
            },
            event matches SignTextEvent::SignedTextRecorded(outcome) && outcome is Ok,
    {
    }
}

impl SignTextFlow {
    /// The relayer that the request names.
    pub closed spec fn relayer_id(&self) -> RelayerId {
        self.relayer_id
    }

    /// The text to sign.
    pub closed spec fn text(&self) -> String {
        self.text
    }

    /// Whether a webhook manager is set up to be told of signed texts.
    pub closed spec fn webhooks_enabled(&self) -> bool {
        self.webhooks_enabled
    }

    /// Where the request stands.
    pub closed spec fn stage(&self) -> SignTextStage {
        self.stage
    }

    /// Once its credentials are checked, a relayer that the flow goes on
    /// with is not paused.
    pub closed spec fn well_formed(&self) -> bool {
        match self.stage {
            SignTextStage::ReservingRateLimit { relayer } => !relayer.paused,
            SignTextStage::CheckingPersonalSigning { relayer, .. } => !relayer.paused,
            SignTextStage::Signing { relayer, .. } => !relayer.paused,
            SignTextStage::Recording { relayer, .. } => !relayer.paused,
            _ => true,
        }
    }

    /// Starts a request for `relayer_id` to sign the text of `request`; the
    /// first action is the basic-authentication check.
    pub fn start(relayer_id: RelayerId, request: SignTextDto, webhooks_enabled: bool) -> (res: (
        Self,
        SignTextAction,
    ))
        ensures
            res.0.well_formed(),
            res.0.relayer_id() == relayer_id,
            res.0.text() == request.text,
            res.0.webhooks_enabled() == webhooks_enabled,
            res.0.stage() is CheckingBasicAuth,
            res.1 is CheckBasicAuth,
    {
        let flow = SignTextFlow {
            relayer_id,
            text: request.text,
            webhooks_enabled,
            stage: SignTextStage::CheckingBasicAuth,
        };
        (flow, SignTextAction::CheckBasicAuth)
    }

    /// Whether the flow waits for `event` (and has not ended).
    pub fn accepts(&self, event: &SignTextEvent) -> (yes: bool)
        ensures
            yes == expects(self.stage(), *event),
    {
        match (&self.stage, event) {
            (SignTextStage::CheckingBasicAuth, SignTextEvent::BasicAuthChecked(_)) => true,
            (SignTextStage::LoadingRelayer, SignTextEvent::RelayerLoaded(_)) => true,
            (SignTextStage::CheckingRelayerAuth { .. }, SignTextEvent::RelayerAuthChecked(_)) => true,
            (SignTextStage::ReservingRateLimit { .. }, SignTextEvent::RateLimitReserved(_)) => true,
            (
                SignTextStage::CheckingPersonalSigning { .. },
                SignTextEvent::PersonalSigningChecked(_),
            ) => true,
            (SignTextStage::Signing { .. }, SignTextEvent::TextSigned(_)) => true,
            (SignTextStage::Recording { .. }, SignTextEvent::SignedTextRecorded(_)) => true,
            _ => false,
        }
    }

    /// Whether the request has been answered.
    pub fn is_done(&self) -> (done: bool)
        ensures
            done == (self.stage() is Done),
    {
        match self.stage {
            SignTextStage::Done => true,
            _ => false,
        }
    }

    /// Takes the outcome of the last action and gives the next one.
    pub fn step(&mut self, event: SignTextEvent) -> (action: SignTextAction)
        requires
            old(self).well_formed(),
            expects(old(self).stage(), event),
        ensures
            final(self).well_formed(),
            final(self).relayer_id() == old(self).relayer_id(),
            final(self).text() == old(self).text(),
            final(self).webhooks_enabled() == old(self).webhooks_enabled(),
            sign_text_step(
                old(self).relayer_id(),
                old(self).text(),
                old(self).webhooks_enabled(),
                old(self).stage(),
                event,
                final(self).stage(),
                action,
            ),
    {
        let stage = self.stage;
        match (stage, event) {
            (SignTextStage::CheckingBasicAuth, SignTextEvent::BasicAuthChecked(outcome)) => {
                match outcome {
                    Err(error) => self.reject(error),
                    Ok(_) => {
                        self.stage = SignTextStage::LoadingRelayer;
                        SignTextAction::LoadRelayer { relayer_id: self.relayer_id }
                    },
                }
            },
            (SignTextStage::LoadingRelayer, SignTextEvent::RelayerLoaded(outcome)) => {
                match outcome {
                    Err(error) => self.reject(error),
                    Ok(None) => {
                        let message = "Relayer does not exist";
                        self.reject(HttpError { status: 404, message: String::from_str(message) })
                    },
                    Ok(Some(relayer)) => {
                        self.stage = SignTextStage::CheckingRelayerAuth { relayer };
                        SignTextAction::CheckRelayerAuth {
                            address: relayer.address,
                            chain_id: relayer.chain_id,
                        }
                    },
                }
            },
            (
                SignTextStage::CheckingRelayerAuth { relayer },
                SignTextEvent::RelayerAuthChecked(outcome),
            ) => {
                match outcome {
                    Err(error) => self.reject(error),
                    Ok(_) => {
                        if relayer.paused {
                            let message = "Relayer is paused";
                            self.reject(
                                HttpError { status: 403, message: String::from_str(message) },
                            )
                        } else {
                            self.stage = SignTextStage::ReservingRateLimit { relayer };
                            SignTextAction::ReserveRateLimit { relayer_id: self.relayer_id }
                        }
                    },
                }
            },
            (
                SignTextStage::ReservingRateLimit { relayer },
                SignTextEvent::RateLimitReserved(outcome),
            ) => {
                match outcome {
                    Err(error) => self.reject(error),
                    Ok(reserved) => {
                        self.stage = SignTextStage::CheckingPersonalSigning { relayer, reserved };
                        SignTextAction::CheckPersonalSigning {
                            address: relayer.address,
                            chain_id: relayer.chain_id,
                        }
                    },
                }
            },
            (
                SignTextStage::CheckingPersonalSigning { relayer, reserved },
                SignTextEvent::PersonalSigningChecked(outcome),
            ) => {
                match outcome {
                    Err(error) => self.reject(error),
                    Ok(_) => {
                        self.stage = SignTextStage::Signing { relayer, reserved };
                        SignTextAction::SignText {
                            wallet_index: relayer.wallet_index,
                            text: self.text.clone(),
                        }
                    },
                }
            },
            (SignTextStage::Signing { relayer, reserved }, SignTextEvent::TextSigned(outcome)) => {
                match outcome {
                    Err(error) => self.reject(error),
                    Ok(signature) => {
                        self.stage = SignTextStage::Recording { relayer, reserved, signature };
                        SignTextAction::RecordSignedText {
                            record: RecordSignedTextRequest {
                                relayer_id: self.relayer_id,
                                message: self.text.clone(),
                                signature,
                                chain_id: relayer.provider_chain_id,
                            },
                        }
                    },
                }
            },
            (
                SignTextStage::Recording { relayer, reserved, signature },
                SignTextEvent::SignedTextRecorded(outcome),
            ) => {
                match outcome {
                    Err(error) => self.reject(error),
                    Ok(_) => {
                        self.stage = SignTextStage::Done;
                        let webhook = if self.webhooks_enabled {
                            Some(
                                TextSignedNotice {
                                    relayer_id: self.relayer_id,
                                    chain_id: relayer.provider_chain_id,
                                    message: self.text.clone(),
                                    signature,
                                },
                            )
                        } else {
                            None
                        };
                        SignTextAction::Respond {
                            webhook,
                            commit_reservation: reserved,
                            result: SignTextResult {
                                message_signed: self.text.clone(),
                                signature,
                                signed_by: relayer.address,
                            },
                        }
                    },
                }
            },
            _ => {
                proof {
                    assert(false);
                }
                SignTextAction::CheckBasicAuth
            },
        }
    }

    /// Ends the request with `error`.
    fn reject(&mut self, error: HttpError) -> (action: SignTextAction)
        ensures
            final(self).relayer_id == old(self).relayer_id,
            final(self).text == old(self).text,
            final(self).webhooks_enabled == old(self).webhooks_enabled,
            rejects_with(final(self).stage, action, error),
    {
        self.stage = SignTextStage::Done;
        SignTextAction::Reject { error }
    }
}

} // verus!
