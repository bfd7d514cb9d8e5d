use libp2p_core::multihash::Multihash;
use libp2p_core::{InboundUpgrade, OutboundUpgrade};
use libp2p_identity as identity;
use libp2p_noise as noise;
use libp2p_state::webtransport::authentication::{noise_config, noise_protocol, pin_certhashes};
use libp2p_state::webtransport::error::Error;
use std::collections::HashSet;

/// The SHA-256 multihash code.
const SHA2_256: u64 = 0x12;

fn sha2_256(hex: &str) -> Multihash<64> {
    let digest: Vec<u8> = (0..hex.len() / 2)
        .map(|i| u8::from_str_radix(&hex[2 * i..2 * i + 2], 16).unwrap())
        .collect();
    Multihash::wrap(SHA2_256, &digest).unwrap()
}

/// The multihash of `b"1"`.
fn digest_1() -> Multihash<64> {
    sha2_256("6b86b273ff34fce19d6b804eff5a3f5747ada4eaa22f1d49c01e52ddb7875b4b")
}

/// The multihash of `b"2"`.
fn digest_2() -> Multihash<64> {
    sha2_256("d4735e3a265e16eee03f59718b9b5d03019c07d8b6c51f90da3a666eec13ab35")
}

/// The multihash of `b"3"`.
fn digest_3() -> Multihash<64> {
    sha2_256("4e07408562bedb8b60ce05c1decfe3ad16b72230967de01f640b7e4729b49fce")
}

// `valid_certhases` must be a strict subset of `server_certhashes`
fn validate_webtransport_certhashes(
    valid_certhases: Vec<Multihash<64>>,
    server_certhashes: Vec<Multihash<64>>,
) -> Result<(), noise::Error> {
    let client_id = identity::Keypair::generate_ed25519();
    let server_id = identity::Keypair::generate_ed25519();

    let (client, server) = futures_ringbuf::Endpoint::pair(100, 100);

    futures::executor::block_on(async move {
        let client_config = match noise_config(&client_id, valid_certhases.into_iter().collect()) {
            Ok(config) => config,
            Err(Error::Noise(error)) => return Err(error),
            Err(_) => panic!("unexpected error"),
        };
        let server_config =
            pin_certhashes(noise::Config::new(&server_id)?, server_certhashes.into_iter().collect());
        let info = noise_protocol(&client_config);

        let ((reported_client_id, mut _server_session), (reported_server_id, mut _client_session)) =
            futures::future::try_join(
                server_config.upgrade_inbound(server, info),
                client_config.upgrade_outbound(client, info),
            )
            .await?;

        assert_eq!(reported_client_id, client_id.public().to_peer_id());
        assert_eq!(reported_server_id, server_id.public().to_peer_id());

        Ok(())
    })
}

/// The hashes that were expected and not reported.
fn missing(expected: HashSet<Multihash<64>>, received: HashSet<Multihash<64>>) -> HashSet<Multihash<64>> {
    expected.difference(&received).copied().collect()
}

#[test]
fn webtransport_certhashes() {
    let certhash1 = digest_1();
    let certhash2 = digest_2();
    let certhash3 = digest_3();

    validate_webtransport_certhashes(vec![certhash1, certhash2], vec![certhash1, certhash2])
        .expect("same set of certhashes");

    validate_webtransport_certhashes(vec![certhash1], vec![certhash1, certhash2])
        .expect("subset of certhashes");

    // This is a valid case when certhashes are not self signed
    validate_webtransport_certhashes(vec![], vec![certhash1, certhash2])
        .expect("client without certhashes");

    // This is a valid case when certhashes are not self signed
    validate_webtransport_certhashes(vec![], vec![]).expect("client and server without certhashes");

    assert!(matches!(
        validate_webtransport_certhashes(vec![certhash1, certhash2], vec![])
            .expect_err("empty server certhashes"),
        noise::Error::UnknownWebTransportCerthashes(expected, received)
            if missing(expected.clone(), received.clone())
                == [certhash1, certhash2].into_iter().collect()
    ));

    assert!(matches!(
        validate_webtransport_certhashes(vec![certhash1, certhash3], vec![certhash1, certhash2])
            .expect_err("different server certhashes"),
        noise::Error::UnknownWebTransportCerthashes(expected, received)
            if missing(expected.clone(), received.clone()) == [certhash3].into_iter().collect(),
    ));

    assert!(matches!(
        validate_webtransport_certhashes(vec![certhash1, certhash3], vec![certhash1])
            .expect_err("superset of certhashes"),
        noise::Error::UnknownWebTransportCerthashes(expected, received)
            if missing(expected.clone(), received.clone()) == [certhash3].into_iter().collect(),
    ));
}

#[test]
fn handshake_runs_under_the_noise_protocol() {
    let keypair = identity::Keypair::generate_ed25519();
    let config = match noise_config(&keypair, HashSet::new()) {
        Ok(config) => config,
        Err(_) => panic!("no configuration"),
    };
    assert_eq!(noise_protocol(&config), "/noise");
}
