//! Error types of winbridge and the messages they print.
use crate::text::{decimal, push_decimal, push_str};
use vstd::prelude::*;
use vstd::std_specs::convert::FromSpecImpl;

verus! {

/// Top-level error of winbridge operations.
#[derive(Debug)]
pub enum WinbridgeError {
    Vm(VmError),
    Rdp(RdpError),
    Config(ConfigError),
    /// An I/O failure, carried by the message of the underlying error.
    Io(String),
    /// Any other failure, carried by its message.
    Other(String),
}

/// Failures of VM management through libvirt and the QEMU guest agent.
#[derive(Debug)]
pub enum VmError {
    LibvirtConnect(String),
    DomainNotFound { name: String },
    StateTimeout { operation: String, timeout_secs: u64 },
    LibvirtApi(String),
    GuestAgent(String),
}

/// Failures of the RDP connection.
#[derive(Debug)]
pub enum RdpError {
    Handshake(String),
    Disconnected(String),
    Protocol(String),
}

/// Failures while loading the configuration.
#[derive(Debug)]
pub enum ConfigError {
    CredentialsMissing { path: String },
    PasswordMissing { path: String },
    ParseError { path: String, reason: String },
}

pub type WinbridgeResult<T> = Result<T, WinbridgeError>;

impl VmError {
    /// The user-facing message of the error.
    pub open spec fn spec_message(&self) -> Seq<char> {
        match self {
            VmError::LibvirtConnect(cause) => "libvirt 연결 실패: 사용자가 libvirt 그룹에 속해 있는지 확인하세요. (원인: "@
                + cause@ + ")"@,
            VmError::DomainNotFound { name } => "VM 도메인 '"@ + name@ + "'을(를) 찾을 수 없습니다"@,
            VmError::StateTimeout { operation, timeout_secs } => "VM 상태 전환 시간 초과 ("@
                + operation@ + ", "@ + decimal(*timeout_secs as nat) + "s)"@,
            VmError::LibvirtApi(cause) => "libvirt API 오류: "@ + cause@,
            VmError::GuestAgent(cause) => "QEMU guest agent 오류: "@ + cause@,
        }
    }

    /// Appends the user-facing message of the error.
    pub fn write_message(&self, out: &mut String)
        ensures
            final(out)@ == old(out)@ + self.spec_message(),
    {
        match self {
            VmError::LibvirtConnect(cause) => {
                push_str(out, "libvirt 연결 실패: 사용자가 libvirt 그룹에 속해 있는지 확인하세요. (원인: ");
                push_str(out, cause.as_str());
                push_str(out, ")");
            },
            VmError::DomainNotFound { name } => {
                push_str(out, "VM 도메인 '");
                push_str(out, name.as_str());
                push_str(out, "'을(를) 찾을 수 없습니다");
            },
            VmError::StateTimeout { operation, timeout_secs } => {
                push_str(out, "VM 상태 전환 시간 초과 (");
                push_str(out, operation.as_str());
                push_str(out, ", ");
                push_decimal(out, *timeout_secs);
                push_str(out, "s)");
            },
            VmError::LibvirtApi(cause) => {
                push_str(out, "libvirt API 오류: ");
                push_str(out, cause.as_str());
            },
            VmError::GuestAgent(cause) => {
                push_str(out, "QEMU guest agent 오류: ");
                push_str(out, cause.as_str());
            },
        }
    }

    /// The user-facing message of the error.
    pub fn message(&self) -> (m: String)
        ensures
            m@ == self.spec_message(),
    {
        let mut out = String::new();
        self.write_message(&mut out);
        out
    }
}

impl RdpError {
    /// The user-facing message of the error.
    pub open spec fn spec_message(&self) -> Seq<char> {
        match self {
            RdpError::Handshake(cause) => "RDP 핸드셰이크 실패: "@ + cause@,
            RdpError::Disconnected(cause) => "RDP 연결 끊김: "@ + cause@,
            RdpError::Protocol(cause) => "RDP 데이터 처리 오류: "@ + cause@,
        }
    }

    /// Appends the user-facing message of the error.
    pub fn write_message(&self, out: &mut String)
        ensures
            final(out)@ == old(out)@ + self.spec_message(),
    {
        match self {
            RdpError::Handshake(cause) => {
                push_str(out, "RDP 핸드셰이크 실패: ");
                push_str(out, cause.as_str());
            },
            RdpError::Disconnected(cause) => {
                push_str(out, "RDP 연결 끊김: ");
                push_str(out, cause.as_str());
            },
            RdpError::Protocol(cause) => {
                push_str(out, "RDP 데이터 처리 오류: ");
                push_str(out, cause.as_str());
            },
        }
    }

    /// The user-facing message of the error.
    pub fn message(&self) -> (m: String)
        ensures
            m@ == self.spec_message(),
    {
        let mut out = String::new();
        self.write_message(&mut out);
        out
    }
}

impl ConfigError {
    /// The user-facing message of the error.
    pub open spec fn spec_message(&self) -> Seq<char> {
        match self {
            ConfigError::CredentialsMissing { path } => "자격 증명 파일 없음: "@ + path@
                + ". install.sh를 먼저 실행하세요."@,
            ConfigError::PasswordMissing { path } => "자격 증명 파일에 WINBRIDGE_ADMIN_PASSWORD 항목이 없습니다 ("@
                + path@ + ")"@,
            ConfigError::ParseError { path, reason } => "자격 증명 파일 파싱 오류 ("@ + path@ + "): "@
                + reason@,
        }
    }

    /// Appends the user-facing message of the error.
    pub fn write_message(&self, out: &mut String)
        ensures
            final(out)@ == old(out)@ + self.spec_message(),
    {
        match self {
            ConfigError::CredentialsMissing { path } => {
                push_str(out, "자격 증명 파일 없음: ");
                push_str(out, path.as_str());
                push_str(out, ". install.sh를 먼저 실행하세요.");
            },
            ConfigError::PasswordMissing { path } => {
                push_str(out, "자격 증명 파일에 WINBRIDGE_ADMIN_PASSWORD 항목이 없습니다 (");
                push_str(out, path.as_str());
                push_str(out, ")");
            },
            ConfigError::ParseError { path, reason } => {
                push_str(out, "자격 증명 파일 파싱 오류 (");
                push_str(out, path.as_str());
                push_str(out, "): ");
                push_str(out, reason.as_str());
            },
        }
    }

    /// The user-facing message of the error.
    pub fn message(&self) -> (m: String)
        ensures
            m@ == self.spec_message(),
    {
        let mut out = String::new();
        self.write_message(&mut out);
        out
    }
}

impl WinbridgeError {
    /// The user-facing message of the error.
    pub open spec fn spec_message(&self) -> Seq<char> {
        match self {
            WinbridgeError::Vm(e) => "VM 작업 실패: "@ + e.spec_message(),
            WinbridgeError::Rdp(e) => "RDP 연결 실패: "@ + e.spec_message(),
            WinbridgeError::Config(e) => "설정 로드 실패: "@ + e.spec_message(),
            WinbridgeError::Io(cause) => "I/O 오류: "@ + cause@,
            WinbridgeError::Other(cause) => cause@,
        }
    }

    /// The user-facing message of the error.
    pub fn message(&self) -> (m: String)
        ensures
            m@ == self.spec_message(),
    {
        let mut out = String::new();
        match self {
            WinbridgeError::Vm(e) => {
                push_str(&mut out, "VM 작업 실패: ");
                e.write_message(&mut out);
            },
            WinbridgeError::Rdp(e) => {
                push_str(&mut out, "RDP 연결 실패: ");
                e.write_message(&mut out);
            },
            WinbridgeError::Config(e) => {
                push_str(&mut out, "설정 로드 실패: ");
                e.write_message(&mut out);
            },
            WinbridgeError::Io(cause) => {
                push_str(&mut out, "I/O 오류: ");
                push_str(&mut out, cause.as_str());
            },
            WinbridgeError::Other(cause) => {
                push_str(&mut out, cause.as_str());
            },
        }
        out
    }
}

impl From<VmError> for WinbridgeError {
    fn from(e: VmError) -> (r: Self) {
        WinbridgeError::Vm(e)
    }
}

impl FromSpecImpl<VmError> for WinbridgeError {
    open spec fn obeys_from_spec() -> bool {
        true
    }

    open spec fn from_spec(e: VmError) -> Self {
        WinbridgeError::Vm(e)
    }
}

impl From<RdpError> for WinbridgeError {
    fn from(e: RdpError) -> (r: Self) {
        WinbridgeError::Rdp(e)
    }
}

impl FromSpecImpl<RdpError> for WinbridgeError {
    open spec fn obeys_from_spec() -> bool {
        true
    }

    open spec fn from_spec(e: RdpError) -> Self {
        WinbridgeError::Rdp(e)
    }
}

impl From<ConfigError> for WinbridgeError {
    fn from(e: ConfigError) -> (r: Self) {
        WinbridgeError::Config(e)
    }
}

impl FromSpecImpl<ConfigError> for WinbridgeError {
    open spec fn obeys_from_spec() -> bool {
        true
    }

    open spec fn from_spec(e: ConfigError) -> Self {
        WinbridgeError::Config(e)
    }
}

} // verus!
