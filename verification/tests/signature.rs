use liege_gateway::controllers::interactions::{authenticate, Admission, Reply};
use liege_gateway::signature::{
    hex_digit_value, parse_key, HeaderValue, SignatureVerifier, VerificationError,
};

const PUBLIC_KEY: &str = "573d53b99a71c5560c5fffc75cc0849b01ba3ca59b435fe945c211c93af90414";
const TIMESTAMP: &str = "1700000000";
const BODY: &[u8] = b"{\"type\":1}";
const SIGNATURE: &str = "e7a9bbcdc8c0d293c546872a64f1cc537c29956f4666d49d106f113a577f80335a1dcc4e0584aa9fa588d1a295e35c469a7e3a72bbcefeeb27bde8d3ceb73802";

fn text(value: &str) -> HeaderValue {
    HeaderValue::Text(value.to_string())
}

#[test]
fn accepts_a_payload_signed_for_the_presented_bytes() {
    let verifier = SignatureVerifier::new(PUBLIC_KEY).unwrap();
    assert_eq!(verifier.verify(SIGNATURE, TIMESTAMP, BODY), Ok(()));
}

#[test]
fn accepts_a_signature_over_bytes_beyond_ascii() {
    let verifier = SignatureVerifier::new(PUBLIC_KEY).unwrap();
    let signature = "3fb705d8f81d2f526dd244ae83f071b074597e4e0812715794f485f60b3107aae6c6d9f5665b89cc90d66977d439d58835114b127386d0429b8222cd2b408709";
    assert_eq!(
        verifier.verify(signature, TIMESTAMP, "{\"name\":\"café\"}".as_bytes()),
        Ok(())
    );
}

#[test]
fn rejects_a_different_body() {
    let verifier = SignatureVerifier::new(PUBLIC_KEY).unwrap();
    assert_eq!(
        verifier.verify(SIGNATURE, TIMESTAMP, b"{\"type\":2}"),
        Err(VerificationError::InvalidSignature)
    );
    assert_eq!(
        verifier.verify(SIGNATURE, TIMESTAMP, b""),
        Err(VerificationError::InvalidSignature)
    );
}

#[test]
fn rejects_a_different_timestamp() {
    let verifier = SignatureVerifier::new(PUBLIC_KEY).unwrap();
    assert_eq!(
        verifier.verify(SIGNATURE, "1700000001", BODY),
        Err(VerificationError::InvalidSignature)
    );
}

#[test]
fn the_split_between_timestamp_and_body_does_not_matter() {
    // the signature is over the timestamp's bytes followed by the body
    let verifier = SignatureVerifier::new(PUBLIC_KEY).unwrap();
    assert_eq!(verifier.verify(SIGNATURE, "17000", b"00000{\"type\":1}"), Ok(()));
}

#[test]
fn rejects_a_signature_that_is_no_hexadecimal_text() {
    let verifier = SignatureVerifier::new(PUBLIC_KEY).unwrap();
    assert_eq!(
        verifier.verify("", TIMESTAMP, BODY),
        Err(VerificationError::InvalidSignature)
    );
    assert_eq!(
        verifier.verify(&SIGNATURE[..126], TIMESTAMP, BODY),
        Err(VerificationError::InvalidSignature)
    );
    assert_eq!(
        verifier.verify(&"zz".repeat(64), TIMESTAMP, BODY),
        Err(VerificationError::InvalidSignature)
    );
}

#[test]
fn rejects_a_signature_under_another_key() {
    let other = SignatureVerifier::new(
        "3d4017c3e843895a92b70aa74d1b7ebc9c982ccf2ec4968cc0cd55f12af4660c",
    )
    .unwrap();
    assert_eq!(
        other.verify(SIGNATURE, TIMESTAMP, BODY),
        Err(VerificationError::InvalidSignature)
    );
}

#[test]
fn accepts_a_published_test_vector() {
    let verifier = SignatureVerifier::new(
        "3d4017c3e843895a92b70aa74d1b7ebc9c982ccf2ec4968cc0cd55f12af4660c",
    )
    .unwrap();
    let signature = "92a009a9f0d4cab8720e820b5f642540a2b27b5416503f8fb3762223ebdb69da085ac1e43e15996e458f3613d0f11d8c387b2eaeb4302aeeb00d291612bb0c00";
    assert_eq!(verifier.verify(signature, "r", b""), Ok(()));
    assert_eq!(verifier.verify(signature, "", b"r"), Ok(()));
    assert_eq!(
        verifier.verify(signature, "r", b"r"),
        Err(VerificationError::InvalidSignature)
    );
}

#[test]
fn key_in_upper_case_is_the_same_key() {
    let verifier = SignatureVerifier::new(&PUBLIC_KEY.to_uppercase()).unwrap();
    assert_eq!(verifier.verify(SIGNATURE, TIMESTAMP, BODY), Ok(()));
}

#[test]
fn key_must_be_sixty_four_hexadecimal_digits() {
    assert!(SignatureVerifier::new("").is_none());
    assert!(SignatureVerifier::new(&PUBLIC_KEY[..62]).is_none());
    assert!(SignatureVerifier::new(&format!("{}00", PUBLIC_KEY)).is_none());
    assert!(SignatureVerifier::new(&format!("{}zz", &PUBLIC_KEY[..62])).is_none());
    assert!(SignatureVerifier::new(&format!("+{}", &PUBLIC_KEY[..63])).is_none());
    assert!(SignatureVerifier::new(&"é".repeat(64)).is_none());
}

#[test]
fn key_must_be_a_point_of_the_curve() {
    let mut bytes = [0u8; 32];
    bytes[0] = 2;
    assert!(SignatureVerifier::try_new(bytes).is_none());
    assert!(SignatureVerifier::new(
        "0200000000000000000000000000000000000000000000000000000000000000"
    )
    .is_none());
}

#[test]
fn parse_key_reads_bytes_most_significant_digit_first() {
    let key = parse_key(PUBLIC_KEY).unwrap();
    assert_eq!(key[0], 0x57);
    assert_eq!(key[1], 0x3d);
    assert_eq!(key[31], 0x14);
    assert_eq!(
        parse_key("000102030405060708090a0B0c0D0e0F101112131415161718191a1b1c1d1e1f").unwrap(),
        {
            let mut expected = [0u8; 32];
            for (i, byte) in expected.iter_mut().enumerate() {
                *byte = i as u8;
            }
            expected
        }
    );
}

#[test]
fn hex_digit_values() {
    assert_eq!(hex_digit_value('0'), Some(0));
    assert_eq!(hex_digit_value('9'), Some(9));
    assert_eq!(hex_digit_value('a'), Some(10));
    assert_eq!(hex_digit_value('f'), Some(15));
    assert_eq!(hex_digit_value('A'), Some(10));
    assert_eq!(hex_digit_value('F'), Some(15));
    assert_eq!(hex_digit_value('g'), None);
    assert_eq!(hex_digit_value('G'), None);
    assert_eq!(hex_digit_value('/'), None);
    assert_eq!(hex_digit_value(':'), None);
    assert_eq!(hex_digit_value('@'), None);
    assert_eq!(hex_digit_value('`'), None);
    assert_eq!(hex_digit_value('é'), None);
}

#[test]
fn request_without_a_header_is_refused_before_the_signature_is_looked_at() {
    let verifier = SignatureVerifier::new(PUBLIC_KEY).unwrap();
    assert_eq!(
        verifier.verify_request(&HeaderValue::Missing, &text(TIMESTAMP), Some(BODY)),
        Err(VerificationError::MissingSignature)
    );
    assert_eq!(
        verifier.verify_request(&HeaderValue::NotText, &text(TIMESTAMP), Some(BODY)),
        Err(VerificationError::UnreadableSignature)
    );
    assert_eq!(
        verifier.verify_request(&text(SIGNATURE), &HeaderValue::Missing, Some(BODY)),
        Err(VerificationError::MissingTimestamp)
    );
    assert_eq!(
        verifier.verify_request(&text(SIGNATURE), &HeaderValue::NotText, Some(BODY)),
        Err(VerificationError::UnreadableTimestamp)
    );
    // a body that could not be read is refused before the headers are looked at
    assert_eq!(
        verifier.verify_request(&text(SIGNATURE), &text(TIMESTAMP), None),
        Err(VerificationError::UnreadableBody)
    );
    assert_eq!(
        verifier.verify_request(&HeaderValue::Missing, &HeaderValue::Missing, None),
        Err(VerificationError::UnreadableBody)
    );
    // the signature header is looked for first
    assert_eq!(
        verifier.verify_request(&HeaderValue::Missing, &HeaderValue::Missing, Some(BODY)),
        Err(VerificationError::MissingSignature)
    );
}

#[test]
fn request_with_both_headers_is_judged_by_its_signature() {
    let verifier = SignatureVerifier::new(PUBLIC_KEY).unwrap();
    assert_eq!(
        verifier.verify_request(&text(SIGNATURE), &text(TIMESTAMP), Some(BODY)),
        Ok(())
    );
    assert_eq!(
        verifier.verify_request(&text(SIGNATURE), &text(TIMESTAMP), Some(b"{}")),
        Err(VerificationError::InvalidSignature)
    );
}

#[test]
fn authenticate_reads_only_authentic_requests() {
    let verifier = SignatureVerifier::new(PUBLIC_KEY).unwrap();
    assert_eq!(
        authenticate(&verifier, &text(SIGNATURE), &text(TIMESTAMP), Some(BODY)),
        Admission::Read
    );
    assert_eq!(
        authenticate(&verifier, &text(SIGNATURE), &text(TIMESTAMP), Some(b"forged")),
        Admission::Refuse(Reply::Unauthorized)
    );
    assert_eq!(
        authenticate(&verifier, &HeaderValue::Missing, &text(TIMESTAMP), Some(BODY)),
        Admission::Refuse(Reply::Unauthorized)
    );
    assert_eq!(
        authenticate(&verifier, &text(SIGNATURE), &text(TIMESTAMP), None),
        Admission::Refuse(Reply::Unauthorized)
    );
    assert_eq!(Reply::Unauthorized.status(), 401);
    assert_eq!(Reply::Unauthorized.text(), "failed to verify signature");
}
