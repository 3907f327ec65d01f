use winbridge::error::{RdpError, WinbridgeError};
use winbridge::tls::{extract_tls_server_public_key, missing_peer_certificate, public_key_from_reading};

#[test]
fn garbage_certificate_is_a_parsing_failure() {
    match extract_tls_server_public_key(&[0x01, 0x02, 0x03]) {
        Err(WinbridgeError::Rdp(RdpError::Handshake(m))) => {
            assert!(m.starts_with("TLS certificate parsing 실패: "));
        }
        other => panic!("unexpected {other:?}"),
    }
}

#[test]
fn certificate_readings_map_to_key_or_error() {
    assert_eq!(public_key_from_reading(Ok(Some(vec![4, 5]))).unwrap(), vec![4, 5]);
    assert_eq!(
        public_key_from_reading(Ok(None)).unwrap_err().message(),
        "RDP 연결 실패: RDP 핸드셰이크 실패: TLS public key bit string 정렬 오류"
    );
    assert_eq!(
        missing_peer_certificate().message(),
        "RDP 연결 실패: RDP 핸드셰이크 실패: TLS peer certificate 없음"
    );
}
