//! The commands of the handshake, one by one and end to end.

use monocoque_zmtp::codec::ZmtpError;
use monocoque_zmtp::security::curve::cipher::CurveBox;
use monocoque_zmtp::security::curve::client::ClientStep;
use monocoque_zmtp::security::curve::hello::{hello_command, CurveHello};
use monocoque_zmtp::security::curve::initiate::{
    check_cookie, check_vouch, initiate_command, make_vouch, CurveInitiate,
};
use monocoque_zmtp::security::curve::ready::{ready_command, CurveReady};
use monocoque_zmtp::security::curve::server::ServerStep;
use monocoque_zmtp::security::curve::step::HandshakeAction;
use monocoque_zmtp::security::curve::welcome::{bake_cookie, welcome_command, CurveWelcome};
use monocoque_zmtp::security::curve::wire::full_nonce;
use monocoque_zmtp::security::curve::{
    CurveClient, CurveKeyPair, CurvePublicKey, CurveSecretKey, CurveServer, CurveSharedSecret,
};

fn pair(byte: u8) -> CurveKeyPair {
    let secret = CurveSecretKey::from_bytes([byte; 32]);
    CurveKeyPair::from_keys(secret.public_key(), secret)
}

fn zero_key() -> CurvePublicKey {
    CurvePublicKey::from_bytes([0u8; 32])
}

/// Open a box with a nonce made of a prefix and a suffix.
fn open(shared: &CurveSharedSecret, prefix: &[u8], suffix: &[u8], sealed: &[u8]) -> Vec<u8> {
    CurveBox::new(shared)
        .decrypt(sealed, &full_nonce(prefix, suffix))
        .unwrap()
}

/// A client and a server that met, each in the state after READY was written.
fn connected() -> (CurveClient, CurveServer, CurvePublicKey) {
    let server_keypair = CurveKeyPair::generate();
    let client_keypair = CurveKeyPair::generate();
    let client_public = client_keypair.public;
    let mut client = CurveClient::new(client_keypair, server_keypair.public);
    let mut server = CurveServer::new(server_keypair);

    let hello = client.send_hello().unwrap();
    server.recv_hello(&hello[6..]).unwrap();
    let welcome = server.send_welcome().unwrap();
    client.recv_welcome(&welcome[8..24], &welcome[24..]).unwrap();
    let initiate = client.send_initiate().unwrap();
    server
        .recv_initiate(&initiate[9..105], &initiate[105..113], &initiate[113..])
        .unwrap();
    let (ready, shared_secret) = server.send_ready().unwrap();
    server.start_session(shared_secret);
    client.recv_ready(&ready[6..14], &ready[14..]).unwrap();
    (client, server, client_public)
}

#[test]
fn hello_is_laid_out_as_version_padding_key_nonce_proof() {
    let (client_short, server) = (pair(1), pair(2));
    let hello = hello_command(&client_short, &server.public, [7u8; 8]).unwrap();
    assert_eq!(hello.len(), 200);
    assert_eq!(&hello[..6], b"\x05HELLO");
    assert_eq!(hello[6..8], [1, 0]);
    assert_eq!(hello[8..80], [0u8; 72]);
    assert_eq!(&hello[80..112], client_short.public.as_bytes());
    assert_eq!(hello[112..120], [7u8; 8]);
    let shared = server.secret.diffie_hellman(&client_short.public).unwrap();
    assert_eq!(
        open(&shared, b"CurveZMQHELLO---", &[7u8; 8], &hello[120..]),
        [0u8; 64]
    );
}

#[test]
fn hello_is_accepted_by_the_server_it_is_meant_for_alone() {
    let (client_short, server) = (pair(1), pair(2));
    let hello = hello_command(&client_short, &server.public, [7u8; 8]).unwrap();
    let read = CurveHello::read_from(&hello[6..], &server).unwrap();
    assert_eq!(read.client_short_public, client_short.public);
    assert!(CurveHello::read_from(&hello[6..], &pair(3)).is_err());
}

#[test]
fn hello_is_refused_where_any_part_is_wrong() {
    let (client_short, server) = (pair(1), pair(2));
    let hello = hello_command(&client_short, &server.public, [7u8; 8]).unwrap();
    for position in [6, 7, 8, 79, 80, 111, 112, 119, 120, 199] {
        let mut wrong = hello.clone();
        wrong[position] ^= 1;
        assert!(matches!(
            CurveHello::read_from(&wrong[6..], &server),
            Err(ZmtpError::Protocol)
        ));
    }
    assert!(CurveHello::read_from(&hello[6..199], &server).is_err());
    assert!(matches!(
        hello_command(&client_short, &zero_key(), [7u8; 8]),
        Err(ZmtpError::Protocol)
    ));
}

#[test]
fn a_proof_of_other_bytes_than_zeros_is_refused() {
    let (client_short, server) = (pair(1), pair(2));
    let shared = client_short.secret.diffie_hellman(&server.public).unwrap();
    let mut proof = [0u8; 64];
    proof[63] = 1;
    let sealed = CurveBox::new(&shared)
        .encrypt(&proof, &full_nonce(b"CurveZMQHELLO---", &[7u8; 8]))
        .unwrap();
    let mut hello = hello_command(&client_short, &server.public, [7u8; 8]).unwrap();
    hello[120..].copy_from_slice(&sealed);
    assert!(CurveHello::read_from(&hello[6..], &server).is_err());
}

#[test]
fn welcome_holds_the_short_term_key_and_the_cookie() {
    let (client_short, server, server_short) = (pair(1), pair(2), pair(3));
    let welcome = welcome_command(
        &server,
        &server_short,
        &client_short.public,
        [8u8; 16],
        [9u8; 16],
        [10u8; 32],
    )
    .unwrap();
    assert_eq!(welcome.len(), 168);
    assert_eq!(&welcome[..8], b"\x07WELCOME");
    assert_eq!(welcome[8..24], [8u8; 16]);

    let shared = client_short.secret.diffie_hellman(&server.public).unwrap();
    let plaintext = open(&shared, b"WELCOME-", &[8u8; 16], &welcome[24..]);
    assert_eq!(&plaintext[..32], server_short.public.as_bytes());
    assert_eq!(plaintext[32..48], [9u8; 16]);
    let cookie_text = open(
        &CurveSharedSecret::from_bytes([10u8; 32]),
        b"COOKIE--",
        &[9u8; 16],
        &plaintext[48..],
    );
    assert_eq!(&cookie_text[..32], client_short.public.as_bytes());
    assert_eq!(cookie_text[32..], [3u8; 32]);

    let read = CurveWelcome::read_from(
        &welcome[8..24],
        &welcome[24..],
        &client_short,
        &server.public,
    )
    .unwrap();
    assert_eq!(read.server_short_public, server_short.public);
    assert_eq!(read.cookie, plaintext[32..]);
    assert_eq!(
        bake_cookie(&client_short.public, &server_short, [9u8; 16], [10u8; 32]).unwrap(),
        read.cookie
    );
}

#[test]
fn welcome_is_refused_from_another_server_or_with_a_wrong_part() {
    let (client_short, server, server_short) = (pair(1), pair(2), pair(3));
    let welcome = welcome_command(
        &server,
        &server_short,
        &client_short.public,
        [8u8; 16],
        [9u8; 16],
        [10u8; 32],
    )
    .unwrap();
    assert!(CurveWelcome::read_from(
        &welcome[8..24],
        &welcome[24..],
        &client_short,
        &pair(4).public
    )
    .is_err());
    // The cipher nonce is the end of the nonce: its start plays no part.
    for position in [12, 23, 24, 167] {
        let mut wrong = welcome.clone();
        wrong[position] ^= 1;
        assert!(matches!(
            CurveWelcome::read_from(&wrong[8..24], &wrong[24..], &client_short, &server.public),
            Err(ZmtpError::Protocol)
        ));
    }
    assert!(CurveWelcome::read_from(
        &welcome[8..23],
        &welcome[24..],
        &client_short,
        &server.public
    )
    .is_err());
    assert!(matches!(
        welcome_command(
            &server,
            &server_short,
            &zero_key(),
            [8u8; 16],
            [9u8; 16],
            [10u8; 32]
        ),
        Err(ZmtpError::Protocol)
    ));
}

#[test]
fn welcome_with_an_all_zero_short_term_key_is_refused() {
    let (client_short, server) = (pair(1), pair(2));
    let shared = server.secret.diffie_hellman(&client_short.public).unwrap();
    let mut plaintext = [1u8; 128];
    plaintext[..32].copy_from_slice(&[0u8; 32]);
    let sealed = CurveBox::new(&shared)
        .encrypt(&plaintext, &full_nonce(b"WELCOME-", &[8u8; 16]))
        .unwrap();
    assert!(CurveWelcome::read_from(&[8u8; 16], &sealed, &client_short, &server.public).is_err());
}

/// The parties of a handshake and an INITIATE command between them.
fn initiate_parts() -> (CurveKeyPair, CurveKeyPair, CurveKeyPair, CurveKeyPair, Vec<u8>) {
    let (client, client_short, server, server_short) = (pair(1), pair(2), pair(3), pair(4));
    let mut cookie = [0u8; 96];
    cookie.copy_from_slice(
        &bake_cookie(&client_short.public, &server_short, [9u8; 16], [10u8; 32]).unwrap(),
    );
    let initiate = initiate_command(
        &client,
        &client_short,
        &server.public,
        &server_short.public,
        &cookie,
        [11u8; 16],
        [12u8; 8],
    )
    .unwrap();
    (client, client_short, server, server_short, initiate)
}

#[test]
fn initiate_returns_the_cookie_and_vouches_for_the_short_term_key() {
    let (client, client_short, server, server_short, initiate) = initiate_parts();
    assert_eq!(initiate.len(), 257);
    assert_eq!(&initiate[..9], b"\x08INITIATE");
    assert_eq!(initiate[9..25], [9u8; 16]);
    assert_eq!(initiate[105..113], [12u8; 8]);

    let shared = server_short
        .secret
        .diffie_hellman(&client_short.public)
        .unwrap();
    let plaintext = open(&shared, b"CurveZMQINITIATE", &[12u8; 8], &initiate[113..]);
    assert_eq!(plaintext.len(), 128);
    assert_eq!(&plaintext[..32], client.public.as_bytes());
    assert_eq!(plaintext[32..48], [11u8; 16]);
    let vouch_shared = server_short.secret.diffie_hellman(&client.public).unwrap();
    let vouch_text = open(&vouch_shared, b"VOUCH---", &[11u8; 16], &plaintext[48..]);
    assert_eq!(&vouch_text[..32], client_short.public.as_bytes());
    assert_eq!(&vouch_text[32..], server.public.as_bytes());

    let read = CurveInitiate::read_from(
        &initiate[9..105],
        &initiate[105..113],
        &initiate[113..],
        &server,
        &server_short,
        &client_short.public,
        &[10u8; 32],
    )
    .unwrap();
    assert_eq!(read.client_public, client.public);
}

#[test]
fn initiate_is_refused_where_any_part_is_wrong() {
    let (_, client_short, server, server_short, initiate) = initiate_parts();
    let read = |command: &[u8],
                server: &CurveKeyPair,
                server_short: &CurveKeyPair,
                client_short: &CurvePublicKey,
                key: &[u8; 32]| {
        CurveInitiate::read_from(
            &command[9..105],
            &command[105..113],
            &command[113..],
            server,
            server_short,
            client_short,
            key,
        )
        .is_ok()
    };
    let short_public = &client_short.public;
    assert!(read(&initiate, &server, &server_short, short_public, &[10u8; 32]));
    assert!(!read(&initiate, &pair(9), &server_short, short_public, &[10u8; 32]));
    assert!(!read(&initiate, &server, &pair(9), short_public, &[10u8; 32]));
    assert!(!read(&initiate, &server, &server_short, &pair(9).public, &[10u8; 32]));
    assert!(!read(&initiate, &server, &server_short, &zero_key(), &[10u8; 32]));
    assert!(!read(&initiate, &server, &server_short, short_public, &[11u8; 32]));
    for position in [24, 25, 104, 105, 112, 113, 256] {
        let mut wrong = initiate.clone();
        wrong[position] ^= 1;
        assert!(!read(&wrong, &server, &server_short, short_public, &[10u8; 32]));
    }
    assert!(!read(&initiate[..256], &server, &server_short, short_public, &[10u8; 32]));
}

#[test]
fn a_vouch_counts_only_for_the_keys_it_names() {
    let (client, client_short, server, server_short, _) = initiate_parts();
    let vouch = make_vouch(
        &client,
        &client_short.public,
        &server.public,
        &server_short.public,
        [11u8; 16],
    )
    .unwrap();
    let check = |client: &CurvePublicKey, short: &CurvePublicKey, server: &CurveKeyPair| {
        check_vouch(&vouch, client, server, &server_short, short)
    };
    assert_eq!(check(&client.public, &client_short.public, &server), Ok(()));
    assert_eq!(
        check(&pair(9).public, &client_short.public, &server),
        Err(ZmtpError::Protocol)
    );
    assert_eq!(
        check(&zero_key(), &client_short.public, &server),
        Err(ZmtpError::Protocol)
    );
    assert_eq!(
        check(&client.public, &pair(9).public, &server),
        Err(ZmtpError::Protocol)
    );
    assert_eq!(
        check(&client.public, &client_short.public, &pair(9)),
        Err(ZmtpError::Protocol)
    );
    assert!(make_vouch(
        &client,
        &client_short.public,
        &server.public,
        &zero_key(),
        [11u8; 16]
    )
    .is_err());
}

#[test]
fn a_cookie_counts_only_for_its_client_and_its_server() {
    let (client_short, server_short) = (pair(2), pair(4));
    let cookie = bake_cookie(&client_short.public, &server_short, [9u8; 16], [10u8; 32]).unwrap();
    assert_eq!(
        check_cookie(&cookie, &server_short, &client_short.public, &[10u8; 32]),
        Ok(())
    );
    assert_eq!(
        check_cookie(&cookie, &server_short, &pair(9).public, &[10u8; 32]),
        Err(ZmtpError::Protocol)
    );
    assert_eq!(
        check_cookie(&cookie, &pair(9), &client_short.public, &[10u8; 32]),
        Err(ZmtpError::Protocol)
    );
    assert_eq!(
        check_cookie(&cookie, &server_short, &client_short.public, &[11u8; 32]),
        Err(ZmtpError::Protocol)
    );
}

#[test]
fn ready_is_an_empty_box() {
    let (client_short, server_short) = (pair(2), pair(4));
    let shared = server_short
        .secret
        .diffie_hellman(&client_short.public)
        .unwrap();
    let ready = ready_command(&shared, [13u8; 8]).unwrap();
    assert_eq!(ready.len(), 30);
    assert_eq!(&ready[..6], b"\x05READY");
    assert_eq!(ready[6..14], [13u8; 8]);
    assert!(open(&shared, b"CurveZMQREADY---", &[13u8; 8], &ready[14..]).is_empty());

    let read = |nonce: &[u8], sealed: &[u8], server_short: &CurvePublicKey| {
        CurveReady::read_from(nonce, sealed, &client_short, server_short).is_ok()
    };
    assert!(read(&ready[6..14], &ready[14..], &server_short.public));
    assert!(!read(&ready[6..14], &ready[14..], &pair(9).public));
    assert!(!read(&ready[6..14], &ready[14..], &zero_key()));
    assert!(!read(&ready[6..13], &ready[14..], &server_short.public));
    assert!(!read(&ready[6..14], &[0u8; 16], &server_short.public));
    assert!(!read(&ready[6..14], &[0u8; 17], &server_short.public));
}

#[test]
fn a_completed_handshake_carries_messages_both_ways() {
    let (mut client, mut server, client_public) = connected();
    assert_eq!(server.client_public, Some(client_public));
    for text in [b"ping".as_slice(), b"", b"a longer message"] {
        let sent = client.encrypt_message(text).unwrap();
        assert_eq!(server.decrypt_message(&sent).unwrap().as_ref(), text);
        assert!(server.decrypt_message(&sent).is_err());
        let answer = server.encrypt_message(text).unwrap();
        assert_eq!(client.decrypt_message(&answer).unwrap().as_ref(), text);
    }
}

#[test]
fn cookies_are_used_once_on_both_sides() {
    let server_keypair = CurveKeyPair::generate();
    let mut client = CurveClient::new(CurveKeyPair::generate(), server_keypair.public);
    let mut server = CurveServer::new(server_keypair);
    let hello = client.send_hello().unwrap();
    server.recv_hello(&hello[6..]).unwrap();
    let welcome = server.send_welcome().unwrap();
    assert!(server.cookie_key.is_some());
    client.recv_welcome(&welcome[8..24], &welcome[24..]).unwrap();

    let initiate = client.send_initiate().unwrap();
    assert!(client.welcome_cookie.is_none());
    assert_eq!(client.send_initiate(), Err(ZmtpError::Protocol));

    let parts = (&initiate[9..105], &initiate[105..113], &initiate[113..]);
    assert_eq!(server.recv_initiate(parts.0, parts.1, parts.2), Ok(()));
    assert!(server.cookie_key.is_none());
    assert_eq!(
        server.recv_initiate(parts.0, parts.1, parts.2),
        Err(ZmtpError::Protocol)
    );
}

#[test]
fn commands_out_of_turn_are_refused() {
    let server_keypair = CurveKeyPair::generate();
    let mut client = CurveClient::new(CurveKeyPair::generate(), server_keypair.public);
    let mut server = CurveServer::new(server_keypair);
    assert_eq!(client.send_initiate(), Err(ZmtpError::Protocol));
    assert_eq!(
        client.recv_ready(&[0u8; 8], &[0u8; 16]),
        Err(ZmtpError::Protocol)
    );
    assert_eq!(server.send_welcome(), Err(ZmtpError::Protocol));
    assert!(server.cookie_key.is_none());
    assert!(matches!(server.send_ready(), Err(ZmtpError::Protocol)));

    assert!(client.handshake(ClientStep::InitiateWritten, &[]).is_err());
    assert!(server.handshake(ServerStep::WelcomeWritten, &[]).is_err());
    assert!(server
        .handshake(
            ServerStep::ReadyWritten {
                shared_secret: CurveSharedSecret::from_bytes([1u8; 32])
            },
            &[]
        )
        .is_err());
}

#[test]
fn a_server_key_of_low_order_stops_the_client_at_once() {
    let mut client = CurveClient::new(CurveKeyPair::generate(), zero_key());
    assert_eq!(client.send_hello(), Err(ZmtpError::Protocol));
    assert!(client.handshake(ClientStep::Start, &[]).is_err());
}

#[test]
fn steps_ask_for_the_pieces_of_each_command() {
    let server_keypair = CurveKeyPair::generate();
    let mut client = CurveClient::new(CurveKeyPair::generate(), server_keypair.public);
    let mut server = CurveServer::new(server_keypair);

    let (server_step, action) = server.handshake(ServerStep::Start, &[]).unwrap();
    assert!(matches!(action, HandshakeAction::Read(6)));
    let (client_step, action) = client.handshake(ClientStep::Start, &[]).unwrap();
    let hello = match action {
        HandshakeAction::Write(command) => command,
        _ => panic!("a client starts by writing"),
    };

    let (server_step, action) = server.handshake(server_step, &hello[..6]).unwrap();
    assert!(matches!(action, HandshakeAction::Read(194)));
    let (server_step, action) = server.handshake(server_step, &hello[6..]).unwrap();
    let welcome = match action {
        HandshakeAction::Write(command) => command,
        _ => panic!("HELLO is answered"),
    };

    let (client_step, action) = client.handshake(client_step, &[]).unwrap();
    assert!(matches!(action, HandshakeAction::Read(8)));
    let (client_step, action) = client.handshake(client_step, &welcome[..8]).unwrap();
    assert!(matches!(action, HandshakeAction::Read(16)));
    let (client_step, action) = client.handshake(client_step, &welcome[8..24]).unwrap();
    assert!(matches!(action, HandshakeAction::Read(144)));
    let (client_step, action) = client.handshake(client_step, &welcome[24..]).unwrap();
    let initiate = match action {
        HandshakeAction::Write(command) => command,
        _ => panic!("WELCOME is answered"),
    };

    let (server_step, action) = server.handshake(server_step, &[]).unwrap();
    assert!(matches!(action, HandshakeAction::Read(9)));
    let (server_step, action) = server.handshake(server_step, &initiate[..9]).unwrap();
    assert!(matches!(action, HandshakeAction::Read(96)));
    let (server_step, action) = server.handshake(server_step, &initiate[9..105]).unwrap();
    assert!(matches!(action, HandshakeAction::Read(8)));
    let (server_step, action) = server.handshake(server_step, &initiate[105..113]).unwrap();
    assert!(matches!(action, HandshakeAction::Read(144)));
    let (server_step, action) = server.handshake(server_step, &initiate[113..]).unwrap();
    let ready = match action {
        HandshakeAction::Write(command) => command,
        _ => panic!("INITIATE is answered"),
    };
    assert!(server.session_cipher.is_none());
    let (server_step, action) = server.handshake(server_step, &[]).unwrap();
    assert!(matches!(action, HandshakeAction::Finish(key) if key == client.client_keypair.public));
    assert!(server.session_cipher.is_some());
    assert!(matches!(
        server.handshake(server_step, &[]),
        Ok((ServerStep::Done { .. }, HandshakeAction::Finish(_)))
    ));

    let (client_step, action) = client.handshake(client_step, &[]).unwrap();
    assert!(matches!(action, HandshakeAction::Read(6)));
    let (client_step, action) = client.handshake(client_step, &ready[..6]).unwrap();
    assert!(matches!(action, HandshakeAction::Read(8)));
    let (client_step, action) = client.handshake(client_step, &ready[6..14]).unwrap();
    assert!(matches!(action, HandshakeAction::Read(16)));
    let (client_step, action) = client.handshake(client_step, &ready[14..]).unwrap();
    assert!(matches!(action, HandshakeAction::Finish(())));
    assert!(matches!(
        client.handshake(client_step, &[]),
        Ok((ClientStep::Done, HandshakeAction::Finish(())))
    ));
}

#[test]
fn steps_refuse_wrong_names_and_short_reads() {
    let mut client = CurveClient::new(pair(1), pair(2).public);
    let mut server = CurveServer::new(pair(2));
    assert!(client.handshake(ClientStep::WelcomeName, b"\x07WELCOMF").is_err());
    assert!(client.handshake(ClientStep::WelcomeNonce, &[0u8; 15]).is_err());
    assert!(client
        .handshake(ClientStep::WelcomeBox { nonce: vec![0u8; 16] }, &[0u8; 144])
        .is_err());
    assert!(client.handshake(ClientStep::ReadyName, b"\x05READX").is_err());
    assert!(client.handshake(ClientStep::ReadyNonce, &[0u8; 9]).is_err());
    assert!(client
        .handshake(ClientStep::ReadyBox { nonce: vec![0u8; 8] }, &[0u8; 16])
        .is_err());
    assert!(server.handshake(ServerStep::HelloName, b"\x05HELLP").is_err());
    assert!(server.handshake(ServerStep::HelloBody, &[0u8; 194]).is_err());
    assert!(server.handshake(ServerStep::InitiateName, b"\x08INITIATF").is_err());
    assert!(server.handshake(ServerStep::InitiateCookie, &[0u8; 95]).is_err());
    assert!(server
        .handshake(ServerStep::InitiateNonce { cookie: vec![0u8; 96] }, &[0u8; 7])
        .is_err());
    assert!(server
        .handshake(
            ServerStep::InitiateBox {
                cookie: vec![0u8; 96],
                nonce: vec![0u8; 8]
            },
            &[0u8; 144]
        )
        .is_err());
}
