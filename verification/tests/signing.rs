use alloy::primitives::{Address, Signature, U256};
use rrelayer::signing::{
    EvmAddress, HttpError, RelayerContext, RelayerId, SignTextAction, SignTextDto, SignTextEvent,
    SignTextFlow,
};

fn relayer(paused: bool) -> RelayerContext {
    RelayerContext {
        address: EvmAddress(Address::repeat_byte(0x11)),
        chain_id: 31337,
        paused,
        wallet_index: 7,
        provider_chain_id: 31338,
    }
}

fn signature() -> Signature {
    Signature::new(U256::from(1u8), U256::from(2u8), true)
}

fn start(webhooks: bool) -> SignTextFlow {
    let (flow, first) = SignTextFlow::start(
        RelayerId(42),
        SignTextDto { text: "hello world".to_string() },
        webhooks,
    );
    assert!(matches!(first, SignTextAction::CheckBasicAuth));
    flow
}

fn error(status: u16, message: &str) -> HttpError {
    HttpError { status, message: message.to_string() }
}

fn run_to_signing(flow: &mut SignTextFlow, reserved: bool) {
    assert!(matches!(
        flow.step(SignTextEvent::BasicAuthChecked(Ok(()))),
        SignTextAction::LoadRelayer { relayer_id: RelayerId(42) }
    ));
    match flow.step(SignTextEvent::RelayerLoaded(Ok(Some(relayer(false))))) {
        SignTextAction::CheckRelayerAuth { address, chain_id } => {
            assert_eq!(address.0, Address::repeat_byte(0x11));
            assert_eq!(chain_id, 31337);
        }
        _ => panic!("expected the relayer auth check"),
    }
    assert!(matches!(
        flow.step(SignTextEvent::RelayerAuthChecked(Ok(()))),
        SignTextAction::ReserveRateLimit { relayer_id: RelayerId(42) }
    ));
    assert!(matches!(
        flow.step(SignTextEvent::RateLimitReserved(Ok(reserved))),
        SignTextAction::CheckPersonalSigning { chain_id: 31337, .. }
    ));
    match flow.step(SignTextEvent::PersonalSigningChecked(Ok(()))) {
        SignTextAction::SignText { wallet_index, text } => {
            assert_eq!(wallet_index, 7);
            assert_eq!(text, "hello world");
        }
        _ => panic!("expected signing"),
    }
}

#[test]
fn sign_text_success_with_webhook_and_reservation() {
    let mut flow = start(true);
    run_to_signing(&mut flow, true);
    match flow.step(SignTextEvent::TextSigned(Ok(signature()))) {
        SignTextAction::RecordSignedText { record } => {
            assert_eq!(record.relayer_id, RelayerId(42));
            assert_eq!(record.message, "hello world");
            assert_eq!(record.signature, signature());
            assert_eq!(record.chain_id, 31338);
        }
        _ => panic!("expected the record"),
    }
    match flow.step(SignTextEvent::SignedTextRecorded(Ok(()))) {
        SignTextAction::Respond { webhook, commit_reservation, result } => {
            let notice = webhook.unwrap();
            assert_eq!(notice.relayer_id, RelayerId(42));
            assert_eq!(notice.chain_id, 31338);
            assert_eq!(notice.message, "hello world");
            assert_eq!(notice.signature, signature());
            assert!(commit_reservation);
            assert_eq!(result.message_signed, "hello world");
            assert_eq!(result.signature, signature());
            assert_eq!(result.signed_by.0, Address::repeat_byte(0x11));
        }
        _ => panic!("expected the response"),
    }
    assert!(flow.is_done());
    assert!(!flow.accepts(&SignTextEvent::BasicAuthChecked(Ok(()))));
}

#[test]
fn sign_text_success_without_webhook_or_reservation() {
    let mut flow = start(false);
    run_to_signing(&mut flow, false);
    flow.step(SignTextEvent::TextSigned(Ok(signature())));
    match flow.step(SignTextEvent::SignedTextRecorded(Ok(()))) {
        SignTextAction::Respond { webhook, commit_reservation, .. } => {
            assert!(webhook.is_none());
            assert!(!commit_reservation);
        }
        _ => panic!("expected the response"),
    }
}

#[test]
fn sign_text_unknown_relayer_is_not_found() {
    let mut flow = start(true);
    flow.step(SignTextEvent::BasicAuthChecked(Ok(())));
    match flow.step(SignTextEvent::RelayerLoaded(Ok(None))) {
        SignTextAction::Reject { error } => {
            assert_eq!(error.status, 404);
            assert_eq!(error.message, "Relayer does not exist");
        }
        _ => panic!("expected not found"),
    }
    assert!(flow.is_done());
}

#[test]
fn sign_text_paused_relayer_is_forbidden() {
    let mut flow = start(true);
    flow.step(SignTextEvent::BasicAuthChecked(Ok(())));
    flow.step(SignTextEvent::RelayerLoaded(Ok(Some(relayer(true)))));
    match flow.step(SignTextEvent::RelayerAuthChecked(Ok(()))) {
        SignTextAction::Reject { error } => {
            assert_eq!(error.status, 403);
            assert_eq!(error.message, "Relayer is paused");
        }
        _ => panic!("expected forbidden"),
    }
    assert!(flow.is_done());
}

#[test]
fn sign_text_auth_failure_wins_over_paused() {
    let mut flow = start(true);
    flow.step(SignTextEvent::BasicAuthChecked(Ok(())));
    flow.step(SignTextEvent::RelayerLoaded(Ok(Some(relayer(true)))));
    match flow.step(SignTextEvent::RelayerAuthChecked(Err(error(401, "bad credentials")))) {
        SignTextAction::Reject { error } => assert_eq!(error.status, 401),
        _ => panic!("expected the auth error"),
    }
}

#[test]
fn sign_text_basic_auth_refused() {
    let mut flow = start(true);
    match flow.step(SignTextEvent::BasicAuthChecked(Err(error(401, "basic auth disabled")))) {
        SignTextAction::Reject { error } => {
            assert_eq!(error.status, 401);
            assert_eq!(error.message, "basic auth disabled");
        }
        _ => panic!("expected the error"),
    }
    assert!(flow.is_done());
}

#[test]
fn sign_text_rate_limited() {
    let mut flow = start(true);
    flow.step(SignTextEvent::BasicAuthChecked(Ok(())));
    flow.step(SignTextEvent::RelayerLoaded(Ok(Some(relayer(false)))));
    flow.step(SignTextEvent::RelayerAuthChecked(Ok(())));
    assert!(matches!(
        flow.step(SignTextEvent::RateLimitReserved(Err(error(429, "rate limited")))),
        SignTextAction::Reject { error: HttpError { status: 429, .. } }
    ));
}

#[test]
fn sign_text_failures_after_reservation_do_not_commit() {
    let mut flow = start(true);
    run_to_signing(&mut flow, true);
    assert!(matches!(
        flow.step(SignTextEvent::TextSigned(Err(error(500, "signer down")))),
        SignTextAction::Reject { error: HttpError { status: 500, .. } }
    ));
    let mut flow = start(true);
    run_to_signing(&mut flow, true);
    flow.step(SignTextEvent::TextSigned(Ok(signature())));
    assert!(matches!(
        flow.step(SignTextEvent::SignedTextRecorded(Err(error(500, "db down")))),
        SignTextAction::Reject { error: HttpError { status: 500, .. } }
    ));
}

#[test]
fn sign_text_restricted_personal_signing() {
    let mut flow = start(true);
    flow.step(SignTextEvent::BasicAuthChecked(Ok(())));
    flow.step(SignTextEvent::RelayerLoaded(Ok(Some(relayer(false)))));
    flow.step(SignTextEvent::RelayerAuthChecked(Ok(())));
    flow.step(SignTextEvent::RateLimitReserved(Ok(true)));
    assert!(matches!(
        flow.step(SignTextEvent::PersonalSigningChecked(Err(error(403, "restricted")))),
        SignTextAction::Reject { error: HttpError { status: 403, .. } }
    ));
}

#[test]
fn sign_text_accepts_only_the_awaited_event() {
    let flow = start(true);
    assert!(flow.accepts(&SignTextEvent::BasicAuthChecked(Ok(()))));
    assert!(!flow.accepts(&SignTextEvent::RelayerAuthChecked(Ok(()))));
    assert!(!flow.is_done());
}

#[test]
fn sign_text_dto_holds_the_text() {
    let dto = SignTextDto { text: "abc".to_string() };
    assert_eq!(dto.text, "abc");
}
