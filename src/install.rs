use vstd::prelude::*;

verus! {

/// The operating system a development environment is set up on.
#[derive(Debug, Clone, Copy, PartialEq, Eq, Structural)]
pub enum Platform {
    Windows,
    MacOs,
    ArchLinux,
    DebianLinux,
    RedhatLinux,
    OtherLinux,
    Other,
}

/// The installation procedure for a supported operating system.
#[derive(Debug, Clone, Copy, PartialEq, Eq, Structural)]
pub enum Installer {
    Mac,
    Arch,
    Debian,
    Redhat,
}

pub open spec fn installer_for(p: Platform) -> Option<Installer> {
    match p {
        Platform::MacOs => Some(Installer::Mac),
        Platform::ArchLinux => Some(Installer::Arch),
        Platform::DebianLinux => Some(Installer::Debian),
        Platform::RedhatLinux => Some(Installer::Redhat),
        _ => None,
    }
}

/// Picks the installation procedure for a platform; `None` where the
/// platform is not supported.
pub fn select_installer(platform: Platform) -> (r: Option<Installer>)
    ensures
        r == installer_for(platform),
{
    match platform {
        Platform::MacOs => Some(Installer::Mac),
        Platform::ArchLinux => Some(Installer::Arch),
        Platform::DebianLinux => Some(Installer::Debian),
        Platform::RedhatLinux => Some(Installer::Redhat),
        _ => None,
    }
}

/// How loudly a message is shown.
#[derive(Debug, Clone, Copy, PartialEq, Eq, Structural)]
pub enum Level {
    Info,
    Warning,
    Error,
}

/// A message for the user.
pub struct Message {
    pub level: Level,
    pub text: String,
}

pub open spec fn unsupported_text() -> Seq<char> {
    "This OS is not supported at present"@
}

pub open spec fn setup_hint_text() -> Seq<char> {
    "\u{26a0}\u{fe0f} Please refer to https://docs.substrate.io/install/ for setup information."@
}

/// The messages shown where the platform is not supported: an error, then
/// a warning that points to the setup documentation.
pub fn not_supported_message() -> (r: Vec<Message>)
    ensures
        r@.len() == 2,
        r@[0].level == Level::Error,
        r@[0].text@ == unsupported_text(),
        r@[1].level == Level::Warning,
        r@[1].text@ == setup_hint_text(),
{
    let mut r: Vec<Message> = Vec::new();
    r.push(Message { level: Level::Error, text: "This OS is not supported at present".to_owned() });
    r.push(
        Message {
            level: Level::Warning,
            text: "\u{26a0}\u{fe0f} Please refer to https://docs.substrate.io/install/ for setup information.".to_owned(),
        },
    );
    r
}

} // verus!
