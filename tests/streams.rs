use base64ct::{Base64, Encoding};
use bpx_api_client::client::BpxClientBuilder;
use bpx_api_client::error::Error;
use bpx_api_client::stream::{has_private_stream, is_private_stream, private_streams_of, step_after_send, step_for, InboundFrame, LoopStep};
use ed25519_dalek::{Signature, SigningKey, Verifier};

const SECRET: &str = "AAECAwQFBgcICQoLDA0ODxAREhMUFRYXGBkaGxwdHh8=";

fn seed() -> [u8; 32] {
    let mut s = [0u8; 32];
    for (i, b) in s.iter_mut().enumerate() {
        *b = i as u8;
    }
    s
}

fn names(list: &[&str]) -> Vec<String> {
    list.iter().map(|s| s.to_string()).collect()
}

#[test]
fn private_streams_are_account_namespaced() {
    assert!(is_private_stream("account.orderUpdate"));
    assert!(is_private_stream("account.rfqUpdate.SOL_USDC"));
    assert!(!is_private_stream("ticker.BTC_USDC"));
    assert!(!is_private_stream("account"));
    assert!(!is_private_stream("myaccount.x"));
    assert!(has_private_stream(&names(&["ticker.BTC_USDC", "account.orderUpdate"])));
    assert!(!has_private_stream(&names(&["ticker.BTC_USDC", "depth.SOL_USDC"])));
    assert!(!has_private_stream(&Vec::new()));
    assert_eq!(private_streams_of(&names(&["account.a", "ticker.b", "account.c"])), names(&["account.a", "account.c"]));
}

#[test]
fn mixed_streams_carry_signature() {
    let c = BpxClientBuilder::new().secret(SECRET).build().unwrap();
    let sig = c
        .subscription_signature_at(&names(&["ticker.BTC_USDC", "account.orderUpdate"]), 1000)
        .unwrap()
        .expect("a signature array");
    assert_eq!(sig.len(), 4);
    let vk = SigningKey::from_bytes(&seed()).verifying_key();
    assert_eq!(sig[0], Base64::encode_string(&vk.to_bytes()));
    assert_eq!(sig[2], "1000");
    assert_eq!(sig[3], "5000");
    let s = Signature::from_slice(&Base64::decode_vec(&sig[1]).unwrap()).unwrap();
    assert!(vk.verify(b"instruction=subscribe&timestamp=1000&window=5000", &s).is_ok());
}

#[test]
fn public_streams_carry_no_signature() {
    let c = BpxClientBuilder::new().secret(SECRET).build().unwrap();
    assert!(c.subscription_signature_at(&names(&["ticker.BTC_USDC"]), 1000).unwrap().is_none());
    let anon = BpxClientBuilder::new().build().unwrap();
    assert!(anon.subscription_signature(&names(&["ticker.BTC_USDC"])).unwrap().is_none());
}

#[test]
fn private_stream_needs_key() {
    let anon = BpxClientBuilder::new().build().unwrap();
    let r = anon.subscription_signature_at(&names(&["ticker.BTC_USDC", "account.orderUpdate", "account.rfqUpdate"]), 1000);
    match r {
        Err(Error::StreamsNotAuthenticated(streams)) => {
            assert_eq!(streams, names(&["account.orderUpdate", "account.rfqUpdate"]));
        }
        _ => panic!("expected an authentication error"),
    }
}

#[test]
fn receive_loop_steps() {
    assert_eq!(step_for(&InboundFrame::Data), LoopStep::Forward);
    assert_eq!(step_for(&InboundFrame::UndecodableData), LoopStep::Log);
    assert_eq!(step_for(&InboundFrame::ErrorReport), LoopStep::Log);
    assert_eq!(step_for(&InboundFrame::Failed), LoopStep::Log);
    assert_eq!(step_for(&InboundFrame::OtherText), LoopStep::Continue);
    assert_eq!(step_for(&InboundFrame::Other), LoopStep::Continue);
    assert_eq!(step_for(&InboundFrame::Close), LoopStep::Stop);
    assert_eq!(step_after_send(true), LoopStep::Continue);
    assert_eq!(step_after_send(false), LoopStep::Stop);
}
