//! Decisions of the login flow: whether the credentials file may be written,
//! the identity the speaker announces, and the messages of each failure.

use vstd::prelude::*;
use vstd::utf8::{encode_utf8, is_ascii_chars};
use crate::device::{device_name, device_id, device_id_spec};
use crate::service::{
    speaker_service, speaker_properties, txt_rejected, lemma_speaker_record_refused, describes,
    AnnouncedService,
};

verus! {

/// Port of the speaker announced while logging in.
pub const LOGIN_PORT: u16 = 12345;

/// Port of the speaker announced by the stand-alone discovery tool.
pub const DISCOVERY_PORT: u16 = 8080;

/// Refuse to overwrite an existing credentials file unless forced.
pub fn check_login_target(file_exists: bool, force: bool) -> (res: Result<(), String>)
    ensures
        res is Err <==> (file_exists && !force),
        res matches Err(m) ==> m@ == "File già esistente, usa --force per sovrascrivere"@,
{
    if file_exists && !force {
        return Err(String::from_str("File già esistente, usa --force per sovrascrivere"));
    }
    Ok(())
}

/// The name and id under which the speaker announces itself.
pub struct LoginIdentity {
    pub device_name: String,
    pub device_id: String,
}

/// The identity announced for the user `username`: the name
/// `spotify-quickauth-<username>` and that name's device id.
pub fn login_identity(username: &str) -> (res: LoginIdentity)
    ensures
        res.device_name@ == "spotify-quickauth-"@ + username@,
        res.device_id@ == device_id_spec(res.device_name@),
        res.device_id@.len() == 40,
        is_ascii_chars(res.device_id@),
{
    let name = device_name(username);
    let id = device_id(name.as_str());
    LoginIdentity { device_name: name, device_id: id }
}

/// The speaker's service announced while logging in: instance named after the
/// device, on `LOGIN_PORT`, with the speaker's type, host, address and TXT
/// properties. A refused record is reported as `Errore creazione servizio:
/// <reason>`; with a device id as `device_id` makes (40 ASCII characters) it is
/// refused exactly when the device name takes more than 248 bytes in UTF-8.
pub fn login_service(device_name: &str, device_id: &str) -> (res: Result<AnnouncedService, String>)
    ensures
        res is Err <==> txt_rejected(speaker_properties(device_name@, device_id@)),
        device_id@.len() == 40 && is_ascii_chars(device_id@) ==> (res is Err <==> encode_utf8(
            device_name@,
        ).len() > 248),
        res matches Ok(a) ==> describes(
            a.record,
            "_spotify-connect._tcp.local."@,
            device_name@,
            "RustSpeaker.local."@,
            seq![192u8, 168u8, 179u8, 75u8],
            LOGIN_PORT,
            speaker_properties(device_name@, device_id@),
        ),
        res matches Err(m) ==> exists|reason: Seq<char>| m@ == "Errore creazione servizio: "@ + reason,
{
    proof {
        if device_id@.len() == 40 && is_ascii_chars(device_id@) {
            lemma_speaker_record_refused(device_name@, device_id@);
        }
    }
    match speaker_service(device_name, LOGIN_PORT, device_name, device_id) {
        Ok(announced) => Ok(announced),
        Err(reason) => {
            let mut m = String::from_str("Errore creazione servizio: ");
            m.append(reason.as_str());
            Err(m)
        },
    }
}

/// The steps of the login flow that can fail on the outside.
#[derive(Debug, Clone, Copy, PartialEq, Eq, Structural)]
pub enum LoginStage {
    /// Starting the mDNS daemon.
    Daemon,
    /// Registering the speaker with the daemon.
    Register,
    /// Writing the credentials file.
    SaveCredentials,
}

/// The message prefix that reports a failure at `stage`.
pub open spec fn stage_prefix(stage: LoginStage) -> Seq<char> {
    match stage {
        LoginStage::Daemon => "Errore mDNS: "@,
        LoginStage::Register => "Errore registrazione mDNS: "@,
        LoginStage::SaveCredentials => "Errore salvataggio credenziali: "@,
    }
}

/// The error the login flow returns when `stage` fails with `detail`.
pub fn login_failure(stage: LoginStage, detail: &str) -> (res: String)
    ensures
        res@ == stage_prefix(stage) + detail@,
{
    let mut m = match stage {
        LoginStage::Daemon => String::from_str("Errore mDNS: "),
        LoginStage::Register => String::from_str("Errore registrazione mDNS: "),
        LoginStage::SaveCredentials => String::from_str("Errore salvataggio credenziali: "),
    };
    m.append(detail);
    m
}

/// What the discovery tool does once it has tried to save credentials: exit
/// with `exit_code`, after printing `message` (as a warning when `warning`).
pub struct SaveReport {
    pub exit_code: i32,
    pub message: String,
    pub warning: bool,
}

/// The report for saving credentials to `location` with the outcome `outcome`
/// (the error text on failure): exit 1 with a warning, or exit 0.
pub fn credentials_save_report(location: &str, outcome: &Result<(), String>) -> (res: SaveReport)
    ensures
        match outcome {
            Ok(_) => res.exit_code == 0 && !res.warning && res.message@ == "Credentials saved: "@
                + location@,
            Err(e) => res.exit_code == 1 && res.warning && res.message@
                == "Cannot save credentials to cache: "@ + e@,
        },
{
    match outcome {
        Ok(_) => {
            let mut m = String::from_str("Credentials saved: ");
            m.append(location);
            SaveReport { exit_code: 0, message: m, warning: false }
        },
        Err(e) => {
            let mut m = String::from_str("Cannot save credentials to cache: ");
            m.append(e.as_str());
            SaveReport { exit_code: 1, message: m, warning: true }
        },
    }
}

} // verus!
