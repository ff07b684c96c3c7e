//! Validation rules of the server form that do not depend on the server
//! runtime: the address announced to clients and the login session limit.
use vstd::prelude::*;

use crate::i18n::{tr, tr_owned, tr_spec, GuiLanguage};
use crate::launcher_inputs::{field_value, non_negative_integer_message, parse_usize};
use crate::text::{ipv4_octets, parse_ipv4, parse_u16_text, trim, trim_chars};

verus! {

broadcast use crate::text::lemma_digits_value_nonneg;

pub open spec fn advertised_not_ipv4_message(language: GuiLanguage) -> Seq<char> {
    tr_spec(
        language,
        "클라이언트에 알릴 주소는 IPv4여야 합니다"@,
        "The advertised client address must be IPv4"@,
        "向客户端公布的地址必须是 IPv4"@,
    )
}

pub open spec fn advertised_unusable_message(language: GuiLanguage) -> Seq<char> {
    tr_spec(
        language,
        "클라이언트에 알릴 IPv4는 0.0.0.0, 멀티캐스트, 브로드캐스트 주소일 수 없습니다"@,
        "The advertised IPv4 cannot be 0.0.0.0, multicast, or broadcast"@,
        "向客户端公布的 IPv4 不能是 0.0.0.0、组播或广播地址"@,
    )
}

pub open spec fn base_port_message(language: GuiLanguage) -> Seq<char> {
    tr_spec(
        language,
        "기준 포트는 0~65535 범위여야 합니다"@,
        "The base port must be in the range 0–65535"@,
        "基准端口必须在 0–65535 范围内"@,
    )
}

pub open spec fn max_login_sessions_label(language: GuiLanguage) -> Seq<char> {
    tr_spec(language, "최대 로그인 세션 수"@, "Maximum login sessions"@, "最大登录会话数"@)
}

pub open spec fn zero_login_sessions_message(language: GuiLanguage) -> Seq<char> {
    tr_spec(
        language,
        "최대 로그인 세션 수는 1 이상이어야 합니다"@,
        "Maximum login sessions must be at least 1"@,
        "最大登录会话数必须至少为 1"@,
    )
}

/// An address that clients cannot be sent to: `0.0.0.0`, a multicast
/// address (224.0.0.0/4) or the broadcast address.
pub open spec fn unusable_for_clients(octets: Seq<u8>) -> bool {
    ||| octets == seq![0u8, 0u8, 0u8, 0u8]
    ||| 224 <= octets[0] <= 239
    ||| octets == seq![255u8, 255u8, 255u8, 255u8]
}

/// The IPv4 address that the server announces to clients.
pub fn validate_advertised_address(text: &str, language: GuiLanguage) -> (res: Result<
    [u8; 4],
    String,
>)
    ensures
        match ipv4_octets(trim_chars(text@)) {
            None => res matches Err(m) && m@ == advertised_not_ipv4_message(language),
            Some(octets) => if unusable_for_clients(octets) {
                res matches Err(m) && m@ == advertised_unusable_message(language)
            } else {
                res matches Ok(a) && a@ == octets
            },
        },
{
    let address = match parse_ipv4(trim(text)) {
        Some(address) => address,
        None => {
            return Err(
                tr_owned(
                    language,
                    "클라이언트에 알릴 주소는 IPv4여야 합니다",
                    "The advertised client address must be IPv4",
                    "向客户端公布的地址必须是 IPv4",
                ),
            );
        },
    };
    let unspecified = address[0] == 0 && address[1] == 0 && address[2] == 0 && address[3] == 0;
    let multicast = address[0] >= 224 && address[0] <= 239;
    let broadcast = address[0] == 255 && address[1] == 255 && address[2] == 255 && address[3]
        == 255;
    proof {
        assert(unspecified ==> address@ =~= seq![0u8, 0u8, 0u8, 0u8]);
        assert(broadcast ==> address@ =~= seq![255u8, 255u8, 255u8, 255u8]);
        if address@ == seq![0u8, 0u8, 0u8, 0u8] {
            assert(address@[1] == 0u8 && address@[2] == 0u8 && address@[3] == 0u8);
        }
        if address@ == seq![255u8, 255u8, 255u8, 255u8] {
            assert(address@[1] == 255u8 && address@[2] == 255u8 && address@[3] == 255u8);
        }
    }
    if unspecified || multicast || broadcast {
        return Err(
            tr_owned(
                language,
                "클라이언트에 알릴 IPv4는 0.0.0.0, 멀티캐스트, 브로드캐스트 주소일 수 없습니다",
                "The advertised IPv4 cannot be 0.0.0.0, multicast, or broadcast",
                "向客户端公布的 IPv4 不能是 0.0.0.0、组播或广播地址",
            ),
        );
    }
    Ok(address)
}

/// The base port from which the server's service ports are derived: an
/// integer from 0 to 65535, blanks around it ignored.
pub fn validate_configured_port(text: &str, language: GuiLanguage) -> (res: Result<u16, String>)
    ensures
        match field_value(text@, u16::MAX as int) {
            None => res matches Err(m) && m@ == base_port_message(language),
            Some(v) => res == Ok::<u16, String>(v as u16),
        },
{
    match parse_u16_text(trim(text)) {
        Some(port) => Ok(port),
        None => Err(
            tr_owned(
                language,
                "기준 포트는 0~65535 범위여야 합니다",
                "The base port must be in the range 0–65535",
                "基准端口必须在 0–65535 范围内",
            ),
        ),
    }
}

/// The maximum number of login sessions: a non-negative integer, and at least 1.
pub fn validate_max_login_sessions(text: &str, language: GuiLanguage) -> (res: Result<
    usize,
    String,
>)
    ensures
        match field_value(text@, usize::MAX as int) {
            None => res matches Err(m) && m@ == non_negative_integer_message(
                language,
                max_login_sessions_label(language),
            ),
            Some(v) => if v == 0 {
                res matches Err(m) && m@ == zero_login_sessions_message(language)
            } else {
                res == Ok::<usize, String>(v as usize)
            },
        },
{
    let sessions = match parse_usize(
        text,
        tr(language, "최대 로그인 세션 수", "Maximum login sessions", "最大登录会话数"),
        language,
    ) {
        Ok(sessions) => sessions,
        Err(message) => return Err(message),
    };
    if sessions == 0 {
        return Err(
            tr_owned(
                language,
                "최대 로그인 세션 수는 1 이상이어야 합니다",
                "Maximum login sessions must be at least 1",
                "最大登录会话数必须至少为 1",
            ),
        );
    }
    Ok(sessions)
}

/// The advertised address is refused exactly for `0.0.0.0`, the multicast
/// block 224.0.0.0/4 and `255.255.255.255`: every other IPv4 address, the
/// loopback and private ranges included, is announced as written.
pub proof fn lemma_advertised_refusals(octets: Seq<u8>)
    requires
        octets.len() == 4,
    ensures
        unusable_for_clients(octets) <==> {
            ||| (octets[0] == 0 && octets[1] == 0 && octets[2] == 0 && octets[3] == 0)
            ||| (224 <= octets[0] && octets[0] <= 239)
            ||| (octets[0] == 255 && octets[1] == 255 && octets[2] == 255 && octets[3] == 255)
        },
        octets[0] == 127 ==> !unusable_for_clients(octets),
        octets[0] == 10 ==> !unusable_for_clients(octets),
        (octets[0] == 192 && octets[1] == 168) ==> !unusable_for_clients(octets),
{
    if octets[0] == 0 && octets[1] == 0 && octets[2] == 0 && octets[3] == 0 {
        assert(octets =~= seq![0u8, 0u8, 0u8, 0u8]);
    }
    if octets[0] == 255 && octets[1] == 255 && octets[2] == 255 && octets[3] == 255 {
        assert(octets =~= seq![255u8, 255u8, 255u8, 255u8]);
    }
}

} // verus!
