//! The server public key that CredSSP binds to, read from the RDP server's TLS certificate.
use crate::error::{RdpError, WinbridgeError};
use crate::text::{owned, push_str};
use vstd::prelude::*;
use x509_cert::der::Decode;

verus! {

/// What `x509-cert` reads from a DER certificate: the bytes of the subject public key bit
/// string (`None` when its length is not a whole number of bytes), or the message of the
/// decoding error.
pub uninterp spec fn spec_cert_public_key(der: Seq<u8>) -> Result<Option<Seq<u8>>, Seq<char>>;

/// Decodes a certificate with `x509_cert::Certificate::from_der` and reads
/// `tbs_certificate().subject_public_key_info().subject_public_key.as_bytes()`; a decoding
/// error becomes its message.
#[verifier::external_body]
fn read_cert_public_key(der: &[u8]) -> (r: Result<Option<Vec<u8>>, String>)
    ensures
        r is Ok <==> spec_cert_public_key(der@) is Ok,
        r matches Ok(None) ==> spec_cert_public_key(der@)->Ok_0 is None,
        r matches Ok(Some(k)) ==> spec_cert_public_key(der@)->Ok_0 == Some(k@),
        r matches Err(m) ==> spec_cert_public_key(der@)->Err_0 == m@,
{
    match x509_cert::Certificate::from_der(der) {
        Ok(cert) => Ok(
            cert.tbs_certificate().subject_public_key_info().subject_public_key.as_bytes().map(<[u8]>::to_vec),
        ),
        Err(err) => Err(err.to_string()),
    }
}

/// Whether `r` is the public key, or the handshake error, that a certificate reading gives.
pub open spec fn public_key_result(r: Result<Vec<u8>, WinbridgeError>, read: Result<Option<Seq<u8>>, Seq<char>>) -> bool {
    match read {
        Ok(Some(key)) => r matches Ok(k) && k@ == key,
        Ok(None) => r matches Err(WinbridgeError::Rdp(RdpError::Handshake(m))) && m@
            == "TLS public key bit string 정렬 오류"@,
        Err(err) => r matches Err(WinbridgeError::Rdp(RdpError::Handshake(m))) && m@
            == "TLS certificate parsing 실패: "@ + err,
    }
}

pub open spec fn read_view(read: Result<Option<Vec<u8>>, String>) -> Result<Option<Seq<u8>>, Seq<char>> {
    match read {
        Ok(Some(k)) => Ok(Some(k@)),
        Ok(None) => Ok(None),
        Err(e) => Err(e@),
    }
}

/// The public key from what was read of a certificate: the key bytes, or a handshake error
/// when the certificate did not decode or its key is not byte-aligned.
pub fn public_key_from_reading(read: Result<Option<Vec<u8>>, String>) -> (r: Result<Vec<u8>, WinbridgeError>)
    ensures
        public_key_result(r, read_view(read)),
{
    match read {
        Ok(Some(key)) => Ok(key),
        Ok(None) => Err(WinbridgeError::Rdp(RdpError::Handshake(owned("TLS public key bit string 정렬 오류")))),
        Err(err) => {
            let mut m = owned("TLS certificate parsing 실패: ");
            push_str(&mut m, err.as_str());
            Err(WinbridgeError::Rdp(RdpError::Handshake(m)))
        },
    }
}

/// The subject public key of the server's DER certificate (see `public_key_from_reading`).
pub fn extract_tls_server_public_key(cert: &[u8]) -> (r: Result<Vec<u8>, WinbridgeError>)
    ensures
        public_key_result(r, spec_cert_public_key(cert@)),
{
    let read = read_cert_public_key(cert);
    public_key_from_reading(read)
}

/// The error when the server presented no certificate.
pub fn missing_peer_certificate() -> (r: WinbridgeError)
    ensures
        r matches WinbridgeError::Rdp(RdpError::Handshake(m)) && m@ == "TLS peer certificate 없음"@,
{
    WinbridgeError::Rdp(RdpError::Handshake(owned("TLS peer certificate 없음")))
}

} // verus!
