//! Wi-Fi network settings and their validation.

use vstd::prelude::*;
use vstd::string::*;

use crate::errors::{DomainError, ErrorCode, ErrorDetails, ErrorStage, is_plain_error, opt_str_view};
use crate::text::{byte_len, concat, concat3, contains_char, strs_contain, strs_view, utf8_len};

verus! {

/// The settings of one Wi-Fi network and the radios (targets) that carry it.
#[derive(Debug, Clone)]
pub struct WifiNetworkConfig {
    pub ssid: String,
    pub encryption: String,
    pub key: Option<String>,
    pub targets: Vec<String>,
}

/// The mathematical content of a [`WifiNetworkConfig`].
#[verifier::ext_equal]
pub struct WifiView {
    pub ssid: Seq<char>,
    pub encryption: Seq<char>,
    pub key: Option<Seq<char>>,
    pub targets: Seq<Seq<char>>,
}

impl View for WifiNetworkConfig {
    type V = WifiView;

    open spec fn view(&self) -> WifiView {
        WifiView {
            ssid: self.ssid@,
            encryption: self.encryption@,
            key: opt_str_view(self.key),
            targets: strs_view(self.targets@),
        }
    }
}

/// A dedicated wireless backhaul between mesh nodes.
#[derive(Debug, Clone)]
pub struct MeshBackhaulConfig {
    pub enabled: bool,
    pub backhaul_target: String,
    pub client_target: String,
    pub hidden: bool,
}

/// The channel a radio operates on.
#[derive(Debug, Clone)]
pub struct RadioChannelConfig {
    pub target: String,
    pub channel: u32,
    pub band: Option<String>,
}

/// Two network settings agree on SSID, encryption and key.
pub open spec fn same_settings(a: WifiView, b: WifiView) -> bool {
    &&& a.ssid == b.ssid
    &&& a.encryption == b.encryption
    &&& a.key == b.key
}

/// Whether two network settings agree on SSID, encryption and key.
pub fn same_wifi_settings(a: &WifiNetworkConfig, b: &WifiNetworkConfig) -> (r: bool)
    ensures
        r == same_settings(a@, b@),
{
    a.ssid == b.ssid && a.encryption == b.encryption && crate::text::opt_str_eq(&a.key, &b.key)
}

impl WifiNetworkConfig {
    /// A copy of this configuration.
    pub fn copy(&self) -> (r: WifiNetworkConfig)
        ensures
            r@ == self@,
    {
        WifiNetworkConfig {
            ssid: self.ssid.clone(),
            encryption: self.encryption.clone(),
            key: crate::text::clone_opt_str(&self.key),
            targets: crate::text::clone_strs(&self.targets),
        }
    }
}

/// `validate_ssid` outcome: `Ok` exactly when the SSID is non-empty, at most 32 UTF-8 bytes
/// and free of NUL characters.
pub open spec fn ssid_valid(s: Seq<char>) -> bool {
    s.len() > 0 && byte_len(s) <= 32 && !s.contains('\0')
}

/// The error `validate_ssid` reports for `s`: emptiness first, then length, then NUL.
pub open spec fn ssid_error_ok(s: Seq<char>, e: DomainError) -> bool {
    if s.len() == 0 {
        is_plain_error(e, ErrorCode::InvalidArgument, ErrorStage::Validate, "SSID must not be empty"@)
    } else if byte_len(s) > 32 {
        &&& e.code == ErrorCode::InvalidArgument
        &&& e.stage == ErrorStage::Validate
        &&& e.message@ == "SSID must be at most 32 UTF-8 bytes"@
        &&& e.details matches Some(ErrorDetails::SsidBytes { bytes }) && bytes == byte_len(s)
        &&& !e.retryable && e.operation_id is None && e.request_id is None
    } else {
        is_plain_error(e, ErrorCode::InvalidArgument, ErrorStage::Validate, "SSID must not contain NUL"@)
    }
}

pub fn validate_ssid(ssid: &str) -> (r: Result<(), DomainError>)
    ensures
        r is Ok <==> ssid_valid(ssid@),
        r matches Err(e) ==> ssid_error_ok(ssid@, e),
{
    if ssid.unicode_len() == 0 {
        return Err(
            DomainError::from_message(
                ErrorCode::InvalidArgument,
                ErrorStage::Validate,
                "SSID must not be empty",
            ),
        );
    }
    let bytes = utf8_len(ssid);
    if bytes > 32 {
        return Err(
            DomainError::from_message(
                ErrorCode::InvalidArgument,
                ErrorStage::Validate,
                "SSID must be at most 32 UTF-8 bytes",
            ).details(ErrorDetails::SsidBytes { bytes }),
        );
    }
    if contains_char(ssid, '\0') {
        return Err(
            DomainError::from_message(
                ErrorCode::InvalidArgument,
                ErrorStage::Validate,
                "SSID must not contain NUL",
            ),
        );
    }
    Ok(())
}

/// The message `validate_wifi_config` reports about the key, when the SSID is valid.
pub open spec fn key_rejection(encryption: Seq<char>, key: Option<Seq<char>>) -> Option<Seq<char>> {
    if encryption == "none"@ {
        None
    } else {
        match key {
            None => Some("key must be provided when encryption is not 'none'"@),
            Some(k) => if byte_len(k) < 8 || byte_len(k) > 63 {
                Some("key must be between 8 and 63 characters long"@)
            } else if k.contains('\0') {
                Some("key must not contain NUL"@)
            } else {
                None
            },
        }
    }
}

pub open spec fn opt_slice_view(k: Option<&str>) -> Option<Seq<char>> {
    match k {
        Some(s) => Some(s@),
        None => None,
    }
}

/// Validates the settings of a Wi-Fi network: first the SSID, then, unless encryption is
/// `none`, the key.
pub fn validate_wifi_config(ssid: &str, encryption: &str, key: Option<&str>) -> (r: Result<
    (),
    DomainError,
>)
    ensures
        r is Ok <==> ssid_valid(ssid@) && key_rejection(encryption@, opt_slice_view(key)) is None,
        r matches Err(e) ==> if !ssid_valid(ssid@) {
            ssid_error_ok(ssid@, e)
        } else {
            is_plain_error(
                e,
                ErrorCode::InvalidArgument,
                ErrorStage::Validate,
                key_rejection(encryption@, opt_slice_view(key))->0,
            )
        },
{
    validate_ssid(ssid)?;
    proof {
        reveal_strlit("none");
    }
    if !crate::text::str_eq(encryption, "none") {
        let key = match key {
            Some(k) => k,
            None => {
                return Err(
                    DomainError::from_message(
                        ErrorCode::InvalidArgument,
                        ErrorStage::Validate,
                        "key must be provided when encryption is not 'none'",
                    ),
                );
            },
        };
        let len = utf8_len(key);
        if len < 8 || len > 63 {
            return Err(
                DomainError::from_message(
                    ErrorCode::InvalidArgument,
                    ErrorStage::Validate,
                    "key must be between 8 and 63 characters long",
                ),
            );
        }
        if contains_char(key, '\0') {
            return Err(
                DomainError::from_message(
                    ErrorCode::InvalidArgument,
                    ErrorStage::Validate,
                    "key must not contain NUL",
                ),
            );
        }
    }
    Ok(())
}

/// The channel of the first entry of `rcs` configured for target `t`.
pub open spec fn first_channel(rcs: Seq<RadioChannelConfig>, t: Seq<char>) -> Option<u32>
    decreases rcs.len(),
{
    if rcs.len() == 0 {
        None
    } else if rcs[0].target@ == t {
        Some(rcs[0].channel)
    } else {
        first_channel(rcs.drop_first(), t)
    }
}

fn find_channel(rcs: &Vec<RadioChannelConfig>, t: &String) -> (r: Option<u32>)
    ensures
        r == first_channel(rcs@, t@),
{
    let mut i: usize = 0;
    assert(rcs@.skip(0) =~= rcs@);
    while i < rcs.len()
        invariant
            i <= rcs.len(),
            first_channel(rcs@, t@) == first_channel(rcs@.skip(i as int), t@),
        decreases rcs.len() - i,
    {
        assert(rcs@.skip(i as int)[0] == rcs@[i as int]);
        assert(rcs@.skip(i as int).drop_first() =~= rcs@.skip(i + 1));
        if rcs[i].target == *t {
            return Some(rcs[i].channel);
        }
        i += 1;
    }
    None
}

/// The message `validate_mesh_backhaul_config` rejects a configuration with, in the order the
/// checks run; `None` when the configuration is accepted.
pub open spec fn backhaul_rejection(
    b: MeshBackhaulConfig,
    targets: Seq<Seq<char>>,
    rcs: Seq<RadioChannelConfig>,
) -> Option<Seq<char>> {
    if !b.enabled {
        None
    } else if targets.len() < 2 {
        Some(
            "Dual-radio hardware (at least 2 radios) is required for dedicated wireless backhaul"@,
        )
    } else if b.backhaul_target@ == b.client_target@ {
        Some("Backhaul radio chip and Client access radio chip must be different"@)
    } else if !targets.contains(b.backhaul_target@) {
        Some(
            "Backhaul target radio '"@ + b.backhaul_target@ + "' does not exist in available radios"@,
        )
    } else if !targets.contains(b.client_target@) {
        Some(
            "Client target radio '"@ + b.client_target@ + "' does not exist in available radios"@,
        )
    } else {
        match (first_channel(rcs, b.backhaul_target@), first_channel(rcs, b.client_target@)) {
            (Some(bc), Some(cc)) => if bc > 0 && cc > 0 && bc == cc {
                Some(
                    "Backhaul radio ("@ + b.backhaul_target@ + ") and Client radio ("@
                        + b.client_target@ + ") must operate on different channels"@,
                )
            } else {
                None
            },
            _ => None,
        }
    }
}

/// Validates a dedicated backhaul against the radios the device has and their channels.
pub fn validate_mesh_backhaul_config(
    backhaul: &MeshBackhaulConfig,
    available_targets: &Vec<String>,
    radio_channels: &Vec<RadioChannelConfig>,
) -> (r: Result<(), DomainError>)
    ensures
        match backhaul_rejection(*backhaul, strs_view(available_targets@), radio_channels@) {
            None => r is Ok,
            Some(m) => r matches Err(e) && is_plain_error(
                e,
                ErrorCode::InvalidArgument,
                ErrorStage::Validate,
                m,
            ),
        },
{
    if !backhaul.enabled {
        return Ok(());
    }
    if available_targets.len() < 2 {
        return Err(
            DomainError::from_message(
                ErrorCode::InvalidArgument,
                ErrorStage::Validate,
                "Dual-radio hardware (at least 2 radios) is required for dedicated wireless backhaul",
            ),
        );
    }
    if backhaul.backhaul_target == backhaul.client_target {
        return Err(
            DomainError::from_message(
                ErrorCode::InvalidArgument,
                ErrorStage::Validate,
                "Backhaul radio chip and Client access radio chip must be different",
            ),
        );
    }
    if !strs_contain(available_targets, &backhaul.backhaul_target) {
        let message = concat3(
            "Backhaul target radio '",
            backhaul.backhaul_target.as_str(),
            "' does not exist in available radios",
        );
        return Err(DomainError::new(ErrorCode::InvalidArgument, ErrorStage::Validate, message));
    }
    if !strs_contain(available_targets, &backhaul.client_target) {
        let message = concat3(
            "Client target radio '",
            backhaul.client_target.as_str(),
            "' does not exist in available radios",
        );
        return Err(DomainError::new(ErrorCode::InvalidArgument, ErrorStage::Validate, message));
    }
    let b_chan = find_channel(radio_channels, &backhaul.backhaul_target);
    let c_chan = find_channel(radio_channels, &backhaul.client_target);
    if let (Some(b), Some(c)) = (b_chan, c_chan) {
        if b > 0 && c > 0 && b == c {
            let head = concat3(
                "Backhaul radio (",
                backhaul.backhaul_target.as_str(),
                ") and Client radio (",
            );
            let message = concat3(
                head.as_str(),
                backhaul.client_target.as_str(),
                ") must operate on different channels",
            );
            return Err(
                DomainError::new(ErrorCode::InvalidArgument, ErrorStage::Validate, message),
            );
        }
    }
    Ok(())
}


/// A protected network's key is 8 to 63 UTF-8 bytes long: with encryption other than "none",
/// settings are accepted only with a key of that length without NUL, and a key shorter or longer
/// is refused for its length.
pub proof fn lemma_key_length_checked(ssid: Seq<char>, encryption: Seq<char>, key: Option<Seq<char>>)
    requires
        encryption != "none"@,
    ensures
        ssid_valid(ssid) && key_rejection(encryption, key) is None ==> (key is Some && 8 <= byte_len(key->0) <= 63
            && !key->0.contains('\0')),
        key is Some && (byte_len(key->0) < 8 || byte_len(key->0) > 63) ==> key_rejection(encryption, key) == Some(
            "key must be between 8 and 63 characters long"@,
        ),
{
}

} // verus!
