//! The kinds of artifact that forensic data is taken from, with their
//! names.
use crate::text::{first_double_colon, split_once_double_colon, str_eq};
use vstd::prelude::*;
use vstd::std_specs::convert::FromSpecImpl;
use vstd::string::*;

verus! {

/// An artifact of an operating system that has no kind of its own here.
#[derive(Debug, PartialEq, Eq, PartialOrd, Ord)]
pub struct OtherOS {
    pub os: String,
    pub artifact: String,
}

/// What an `OtherOS` holds, as plain values.
pub struct OtherOSView {
    pub os: Seq<char>,
    pub artifact: Seq<char>,
}

impl View for OtherOS {
    type V = OtherOSView;

    open spec fn view(&self) -> OtherOSView {
        OtherOSView { os: self.os@, artifact: self.artifact@ }
    }
}

impl Clone for OtherOS {
    fn clone(&self) -> (c: Self)
        ensures
            c@ == self@,
    {
        OtherOS { os: self.os.clone(), artifact: self.artifact.clone() }
    }
}

impl Default for OtherOS {
    fn default() -> (d: Self)
        ensures
            d@ == (OtherOSView { os: Seq::<char>::empty(), artifact: Seq::<char>::empty() }),
    {
        OtherOS { os: String::new(), artifact: String::new() }
    }
}

/// The channel of a Windows event.
#[derive(Debug, PartialEq, Eq, PartialOrd, Ord)]
pub enum WindowsEvents {
    Sysmon,
    System,
    Security,
    Other(String),
    Unknown,
}

/// What a value of `WindowsEvents` holds, as plain values.
pub enum WindowsEventsView {
    Sysmon,
    System,
    Security,
    Other(Seq<char>),
    Unknown,
}

impl View for WindowsEvents {
    type V = WindowsEventsView;

    open spec fn view(&self) -> WindowsEventsView {
        match self {
            WindowsEvents::Sysmon => WindowsEventsView::Sysmon,
            WindowsEvents::System => WindowsEventsView::System,
            WindowsEvents::Security => WindowsEventsView::Security,
            WindowsEvents::Other(v) => WindowsEventsView::Other(v@),
            WindowsEvents::Unknown => WindowsEventsView::Unknown,
        }
    }
}

impl Clone for WindowsEvents {
    fn clone(&self) -> (c: Self)
        ensures
            c@ == self@,
    {
        match self {
            WindowsEvents::Sysmon => WindowsEvents::Sysmon,
            WindowsEvents::System => WindowsEvents::System,
            WindowsEvents::Security => WindowsEvents::Security,
            WindowsEvents::Other(v) => WindowsEvents::Other(v.clone()),
            WindowsEvents::Unknown => WindowsEvents::Unknown,
        }
    }
}

impl Default for WindowsEvents {
    fn default() -> (d: Self)
        ensures
            d@ == WindowsEventsView::Unknown,
    {
        WindowsEvents::Unknown
    }
}

/// An artifact of the registry.
#[derive(Debug, PartialEq, Eq, PartialOrd, Ord)]
pub enum RegistryArtifacts {
    ShimCache,
    ShellBags,
    AutoRuns,
    Other(String),
    Unknown,
}

/// What a value of `RegistryArtifacts` holds, as plain values.
pub enum RegistryArtifactsView {
    ShimCache,
    ShellBags,
    AutoRuns,
    Other(Seq<char>),
    Unknown,
}

impl View for RegistryArtifacts {
    type V = RegistryArtifactsView;

    open spec fn view(&self) -> RegistryArtifactsView {
        match self {
            RegistryArtifacts::ShimCache => RegistryArtifactsView::ShimCache,
            RegistryArtifacts::ShellBags => RegistryArtifactsView::ShellBags,
            RegistryArtifacts::AutoRuns => RegistryArtifactsView::AutoRuns,
            RegistryArtifacts::Other(v) => RegistryArtifactsView::Other(v@),
            RegistryArtifacts::Unknown => RegistryArtifactsView::Unknown,
        }
    }
}

impl Clone for RegistryArtifacts {
    fn clone(&self) -> (c: Self)
        ensures
            c@ == self@,
    {
        match self {
            RegistryArtifacts::ShimCache => RegistryArtifacts::ShimCache,
            RegistryArtifacts::ShellBags => RegistryArtifacts::ShellBags,
            RegistryArtifacts::AutoRuns => RegistryArtifacts::AutoRuns,
            RegistryArtifacts::Other(v) => RegistryArtifacts::Other(v.clone()),
            RegistryArtifacts::Unknown => RegistryArtifacts::Unknown,
        }
    }
}

impl Default for RegistryArtifacts {
    fn default() -> (d: Self)
        ensures
            d@ == RegistryArtifactsView::Unknown,
    {
        RegistryArtifacts::Unknown
    }
}

/// A service manager of Linux.
#[derive(Debug, PartialEq, Eq, PartialOrd, Ord)]
pub enum LinuxService {
    SysV,
    InitD,
    SystemD,
    Other(String),
    Unknown,
}

/// What a value of `LinuxService` holds, as plain values.
pub enum LinuxServiceView {
    SysV,
    InitD,
    SystemD,
    Other(Seq<char>),
    Unknown,
}

impl View for LinuxService {
    type V = LinuxServiceView;

    open spec fn view(&self) -> LinuxServiceView {
        match self {
            LinuxService::SysV => LinuxServiceView::SysV,
            LinuxService::InitD => LinuxServiceView::InitD,
            LinuxService::SystemD => LinuxServiceView::SystemD,
            LinuxService::Other(v) => LinuxServiceView::Other(v@),
            LinuxService::Unknown => LinuxServiceView::Unknown,
        }
    }
}

impl Clone for LinuxService {
    fn clone(&self) -> (c: Self)
        ensures
            c@ == self@,
    {
        match self {
            LinuxService::SysV => LinuxService::SysV,
            LinuxService::InitD => LinuxService::InitD,
            LinuxService::SystemD => LinuxService::SystemD,
            LinuxService::Other(v) => LinuxService::Other(v.clone()),
            LinuxService::Unknown => LinuxService::Unknown,
        }
    }
}

impl Default for LinuxService {
    fn default() -> (d: Self)
        ensures
            d@ == LinuxServiceView::Unknown,
    {
        LinuxService::Unknown
    }
}

/// An artifact of macOS.
#[derive(Debug, PartialEq, Eq, PartialOrd, Ord)]
pub enum MacArtifacts {
    Other(String),
    Unknown,
}

/// What a value of `MacArtifacts` holds, as plain values.
pub enum MacArtifactsView {
    Other(Seq<char>),
    Unknown,
}

impl View for MacArtifacts {
    type V = MacArtifactsView;

    open spec fn view(&self) -> MacArtifactsView {
        match self {
            MacArtifacts::Other(v) => MacArtifactsView::Other(v@),
            MacArtifacts::Unknown => MacArtifactsView::Unknown,
        }
    }
}

impl Clone for MacArtifacts {
    fn clone(&self) -> (c: Self)
        ensures
            c@ == self@,
    {
        match self {
            MacArtifacts::Other(v) => MacArtifacts::Other(v.clone()),
            MacArtifacts::Unknown => MacArtifacts::Unknown,
        }
    }
}

impl Default for MacArtifacts {
    fn default() -> (d: Self)
        ensures
            d@ == MacArtifactsView::Unknown,
    {
        MacArtifacts::Unknown
    }
}

/// An artifact of a web browser.
#[derive(Debug, PartialEq, Eq, PartialOrd, Ord)]
pub enum WebBrowsingArtifact {
    BrowserHistory,
    BrowserStorage,
    BrowserCache,
    Cookie,
    Extension,
    ExtensionActivity,
    FileSystem,
    LocalStorage,
    Preferences,
    SessionStorage,
    Download,
    AutoFill,
    RSSFeed,
    Other(String),
    Unknown,
}

/// What a value of `WebBrowsingArtifact` holds, as plain values.
pub enum WebBrowsingArtifactView {
    BrowserHistory,
    BrowserStorage,
    BrowserCache,
    Cookie,
    Extension,
    ExtensionActivity,
    FileSystem,
    LocalStorage,
    Preferences,
    SessionStorage,
    Download,
    AutoFill,
    RSSFeed,
    Other(Seq<char>),
    Unknown,
}

impl View for WebBrowsingArtifact {
    type V = WebBrowsingArtifactView;

    open spec fn view(&self) -> WebBrowsingArtifactView {
        match self {
            WebBrowsingArtifact::BrowserHistory => WebBrowsingArtifactView::BrowserHistory,
            WebBrowsingArtifact::BrowserStorage => WebBrowsingArtifactView::BrowserStorage,
            WebBrowsingArtifact::BrowserCache => WebBrowsingArtifactView::BrowserCache,
            WebBrowsingArtifact::Cookie => WebBrowsingArtifactView::Cookie,
            WebBrowsingArtifact::Extension => WebBrowsingArtifactView::Extension,
            WebBrowsingArtifact::ExtensionActivity => WebBrowsingArtifactView::ExtensionActivity,
            WebBrowsingArtifact::FileSystem => WebBrowsingArtifactView::FileSystem,
            WebBrowsingArtifact::LocalStorage => WebBrowsingArtifactView::LocalStorage,
            WebBrowsingArtifact::Preferences => WebBrowsingArtifactView::Preferences,
            WebBrowsingArtifact::SessionStorage => WebBrowsingArtifactView::SessionStorage,
            WebBrowsingArtifact::Download => WebBrowsingArtifactView::Download,
            WebBrowsingArtifact::AutoFill => WebBrowsingArtifactView::AutoFill,
            WebBrowsingArtifact::RSSFeed => WebBrowsingArtifactView::RSSFeed,
            WebBrowsingArtifact::Other(v) => WebBrowsingArtifactView::Other(v@),
            WebBrowsingArtifact::Unknown => WebBrowsingArtifactView::Unknown,
        }
    }
}

impl Clone for WebBrowsingArtifact {
    fn clone(&self) -> (c: Self)
        ensures
            c@ == self@,
    {
        match self {
            WebBrowsingArtifact::BrowserHistory => WebBrowsingArtifact::BrowserHistory,
            WebBrowsingArtifact::BrowserStorage => WebBrowsingArtifact::BrowserStorage,
            WebBrowsingArtifact::BrowserCache => WebBrowsingArtifact::BrowserCache,
            WebBrowsingArtifact::Cookie => WebBrowsingArtifact::Cookie,
            WebBrowsingArtifact::Extension => WebBrowsingArtifact::Extension,
            WebBrowsingArtifact::ExtensionActivity => WebBrowsingArtifact::ExtensionActivity,
            WebBrowsingArtifact::FileSystem => WebBrowsingArtifact::FileSystem,
            WebBrowsingArtifact::LocalStorage => WebBrowsingArtifact::LocalStorage,
            WebBrowsingArtifact::Preferences => WebBrowsingArtifact::Preferences,
            WebBrowsingArtifact::SessionStorage => WebBrowsingArtifact::SessionStorage,
            WebBrowsingArtifact::Download => WebBrowsingArtifact::Download,
            WebBrowsingArtifact::AutoFill => WebBrowsingArtifact::AutoFill,
            WebBrowsingArtifact::RSSFeed => WebBrowsingArtifact::RSSFeed,
            WebBrowsingArtifact::Other(v) => WebBrowsingArtifact::Other(v.clone()),
            WebBrowsingArtifact::Unknown => WebBrowsingArtifact::Unknown,
        }
    }
}

impl Default for WebBrowsingArtifact {
    fn default() -> (d: Self)
        ensures
            d@ == WebBrowsingArtifactView::Unknown,
    {
        WebBrowsingArtifact::Unknown
    }
}

/// An artifact that is found on every system.
#[derive(Debug, PartialEq, Eq, PartialOrd, Ord)]
pub enum CommonArtifact {
    WebBrowsing(WebBrowsingArtifact),
    Other(String),
    Unknown,
}

/// What a value of `CommonArtifact` holds, as plain values.
pub enum CommonArtifactView {
    WebBrowsing(WebBrowsingArtifactView),
    Other(Seq<char>),
    Unknown,
}

impl View for CommonArtifact {
    type V = CommonArtifactView;

    open spec fn view(&self) -> CommonArtifactView {
        match self {
            CommonArtifact::WebBrowsing(v) => CommonArtifactView::WebBrowsing(v@),
            CommonArtifact::Other(v) => CommonArtifactView::Other(v@),
            CommonArtifact::Unknown => CommonArtifactView::Unknown,
        }
    }
}

impl Clone for CommonArtifact {
    fn clone(&self) -> (c: Self)
        ensures
            c@ == self@,
    {
        match self {
            CommonArtifact::WebBrowsing(v) => CommonArtifact::WebBrowsing(v.clone()),
            CommonArtifact::Other(v) => CommonArtifact::Other(v.clone()),
            CommonArtifact::Unknown => CommonArtifact::Unknown,
        }
    }
}

impl Default for CommonArtifact {
    fn default() -> (d: Self)
        ensures
            d@ == CommonArtifactView::Unknown,
    {
        CommonArtifact::Unknown
    }
}

/// An artifact of Linux.
#[derive(Debug, PartialEq, Eq, PartialOrd, Ord)]
pub enum LinuxArtifacts {
    Log(String),
    ShellHistory(String),
    Cron(String),
    Service(LinuxService),
    Other(String),
    Unknown,
}

/// What a value of `LinuxArtifacts` holds, as plain values.
pub enum LinuxArtifactsView {
    Log(Seq<char>),
    ShellHistory(Seq<char>),
    Cron(Seq<char>),
    Service(LinuxServiceView),
    Other(Seq<char>),
    Unknown,
}

impl View for LinuxArtifacts {
    type V = LinuxArtifactsView;

    open spec fn view(&self) -> LinuxArtifactsView {
        match self {
            LinuxArtifacts::Log(v) => LinuxArtifactsView::Log(v@),
            LinuxArtifacts::ShellHistory(v) => LinuxArtifactsView::ShellHistory(v@),
            LinuxArtifacts::Cron(v) => LinuxArtifactsView::Cron(v@),
            LinuxArtifacts::Service(v) => LinuxArtifactsView::Service(v@),
            LinuxArtifacts::Other(v) => LinuxArtifactsView::Other(v@),
            LinuxArtifacts::Unknown => LinuxArtifactsView::Unknown,
        }
    }
}

impl Clone for LinuxArtifacts {
    fn clone(&self) -> (c: Self)
        ensures
            c@ == self@,
    {
        match self {
            LinuxArtifacts::Log(v) => LinuxArtifacts::Log(v.clone()),
            LinuxArtifacts::ShellHistory(v) => LinuxArtifacts::ShellHistory(v.clone()),
            LinuxArtifacts::Cron(v) => LinuxArtifacts::Cron(v.clone()),
            LinuxArtifacts::Service(v) => LinuxArtifacts::Service(v.clone()),
            LinuxArtifacts::Other(v) => LinuxArtifacts::Other(v.clone()),
            LinuxArtifacts::Unknown => LinuxArtifacts::Unknown,
        }
    }
}

impl Default for LinuxArtifacts {
    fn default() -> (d: Self)
        ensures
            d@ == LinuxArtifactsView::Unknown,
    {
        LinuxArtifacts::Unknown
    }
}

/// An artifact of Windows.
#[derive(Debug, PartialEq, Eq, PartialOrd, Ord)]
pub enum WindowsArtifacts {
    Registry(RegistryArtifacts),
    MFT,
    WinEvt(WindowsEvents),
    Other(String),
    Prefetch,
    UAL,
    Clipboard,
    ScheduledTasks,
    GPO,
    SRU,
    Startup,
    RecycleBin,
    Unknown,
}

/// What a value of `WindowsArtifacts` holds, as plain values.
pub enum WindowsArtifactsView {
    Registry(RegistryArtifactsView),
    MFT,
    WinEvt(WindowsEventsView),
    Other(Seq<char>),
    Prefetch,
    UAL,
    Clipboard,
    ScheduledTasks,
    GPO,
    SRU,
    Startup,
    RecycleBin,
    Unknown,
}

impl View for WindowsArtifacts {
    type V = WindowsArtifactsView;

    open spec fn view(&self) -> WindowsArtifactsView {
        match self {
            WindowsArtifacts::Registry(v) => WindowsArtifactsView::Registry(v@),
            WindowsArtifacts::MFT => WindowsArtifactsView::MFT,
            WindowsArtifacts::WinEvt(v) => WindowsArtifactsView::WinEvt(v@),
            WindowsArtifacts::Other(v) => WindowsArtifactsView::Other(v@),
            WindowsArtifacts::Prefetch => WindowsArtifactsView::Prefetch,
            WindowsArtifacts::UAL => WindowsArtifactsView::UAL,
            WindowsArtifacts::Clipboard => WindowsArtifactsView::Clipboard,
            WindowsArtifacts::ScheduledTasks => WindowsArtifactsView::ScheduledTasks,
            WindowsArtifacts::GPO => WindowsArtifactsView::GPO,
            WindowsArtifacts::SRU => WindowsArtifactsView::SRU,
            WindowsArtifacts::Startup => WindowsArtifactsView::Startup,
            WindowsArtifacts::RecycleBin => WindowsArtifactsView::RecycleBin,
            WindowsArtifacts::Unknown => WindowsArtifactsView::Unknown,
        }
    }
}

impl Clone for WindowsArtifacts {
    fn clone(&self) -> (c: Self)
        ensures
            c@ == self@,
    {
        match self {
            WindowsArtifacts::Registry(v) => WindowsArtifacts::Registry(v.clone()),
            WindowsArtifacts::MFT => WindowsArtifacts::MFT,
            WindowsArtifacts::WinEvt(v) => WindowsArtifacts::WinEvt(v.clone()),
            WindowsArtifacts::Other(v) => WindowsArtifacts::Other(v.clone()),
            WindowsArtifacts::Prefetch => WindowsArtifacts::Prefetch,
            WindowsArtifacts::UAL => WindowsArtifacts::UAL,
            WindowsArtifacts::Clipboard => WindowsArtifacts::Clipboard,
            WindowsArtifacts::ScheduledTasks => WindowsArtifacts::ScheduledTasks,
            WindowsArtifacts::GPO => WindowsArtifacts::GPO,
            WindowsArtifacts::SRU => WindowsArtifacts::SRU,
            WindowsArtifacts::Startup => WindowsArtifacts::Startup,
            WindowsArtifacts::RecycleBin => WindowsArtifacts::RecycleBin,
            WindowsArtifacts::Unknown => WindowsArtifacts::Unknown,
        }
    }
}

impl Default for WindowsArtifacts {
    fn default() -> (d: Self)
        ensures
            d@ == WindowsArtifactsView::Unknown,
    {
        WindowsArtifacts::Unknown
    }
}

/// What a piece of forensic data was taken from.
#[derive(Debug, PartialEq, Eq, PartialOrd, Ord)]
pub enum Artifact {
    Unknown,
    Other(OtherOS),
    Windows(WindowsArtifacts),
    Linux(LinuxArtifacts),
    MacOs(MacArtifacts),
    Common(CommonArtifact),
}

/// What a value of `Artifact` holds, as plain values.
pub enum ArtifactView {
    Unknown,
    Other(OtherOSView),
    Windows(WindowsArtifactsView),
    Linux(LinuxArtifactsView),
    MacOs(MacArtifactsView),
    Common(CommonArtifactView),
}

impl View for Artifact {
    type V = ArtifactView;

    open spec fn view(&self) -> ArtifactView {
        match self {
            Artifact::Unknown => ArtifactView::Unknown,
            Artifact::Other(v) => ArtifactView::Other(v@),
            Artifact::Windows(v) => ArtifactView::Windows(v@),
            Artifact::Linux(v) => ArtifactView::Linux(v@),
            Artifact::MacOs(v) => ArtifactView::MacOs(v@),
            Artifact::Common(v) => ArtifactView::Common(v@),
        }
    }
}

impl Clone for Artifact {
    fn clone(&self) -> (c: Self)
        ensures
            c@ == self@,
    {
        match self {
            Artifact::Unknown => Artifact::Unknown,
            Artifact::Other(v) => Artifact::Other(v.clone()),
            Artifact::Windows(v) => Artifact::Windows(v.clone()),
            Artifact::Linux(v) => Artifact::Linux(v.clone()),
            Artifact::MacOs(v) => Artifact::MacOs(v.clone()),
            Artifact::Common(v) => Artifact::Common(v.clone()),
        }
    }
}

impl Default for Artifact {
    fn default() -> (d: Self)
        ensures
            d@ == ArtifactView::Unknown,
    {
        Artifact::Unknown
    }
}

/// The name of an artifact of another operating system: the system and the
/// artifact with a pair of colons between them.
pub open spec fn name_of_other_os(a: OtherOSView) -> Seq<char> {
    a.os + "::"@ + a.artifact
}

impl OtherOS {
    /// The name of the artifact.
    pub fn to_string(&self) -> (s: String)
        ensures
            s@ == name_of_other_os(self@),
    {
        let mut s = self.os.clone();
        s.append("::");
        s.append(self.artifact.as_str());
        s
    }
}

/// The name of a value of `WindowsEvents`.
pub open spec fn name_of_windows_events(a: WindowsEventsView) -> Seq<char> {
    match a {
        WindowsEventsView::Sysmon => "Sysmon"@,
        WindowsEventsView::System => "System"@,
        WindowsEventsView::Security => "Security"@,
        WindowsEventsView::Other(v) => v,
        WindowsEventsView::Unknown => "Unknown"@,
    }
}

impl WindowsEvents {
    /// The name of the value.
    pub fn to_string(&self) -> (s: String)
        ensures
            s@ == name_of_windows_events(self@),
    {
        match self {
            WindowsEvents::Sysmon => String::from_str("Sysmon"),
            WindowsEvents::System => String::from_str("System"),
            WindowsEvents::Security => String::from_str("Security"),
            WindowsEvents::Other(v) => v.clone(),
            WindowsEvents::Unknown => String::from_str("Unknown"),
        }
    }
}

/// The name of a value of `RegistryArtifacts`.
pub open spec fn name_of_registry_artifacts(a: RegistryArtifactsView) -> Seq<char> {
    match a {
        RegistryArtifactsView::ShimCache => "InitD"@,
        RegistryArtifactsView::ShellBags => "ShellBags"@,
        RegistryArtifactsView::AutoRuns => "AutoRuns"@,
        RegistryArtifactsView::Other(v) => v,
        RegistryArtifactsView::Unknown => "Unknown"@,
    }
}

impl RegistryArtifacts {
    /// The name of the value.
    pub fn to_string(&self) -> (s: String)
        ensures
            s@ == name_of_registry_artifacts(self@),
    {
        match self {
            RegistryArtifacts::ShimCache => String::from_str("InitD"),
            RegistryArtifacts::ShellBags => String::from_str("ShellBags"),
            RegistryArtifacts::AutoRuns => String::from_str("AutoRuns"),
            RegistryArtifacts::Other(v) => v.clone(),
            RegistryArtifacts::Unknown => String::from_str("Unknown"),
        }
    }
}

/// The name of a value of `LinuxService`.
pub open spec fn name_of_linux_service(a: LinuxServiceView) -> Seq<char> {
    match a {
        LinuxServiceView::SysV => "SysV"@,
        LinuxServiceView::InitD => "InitD"@,
        LinuxServiceView::SystemD => "SystemD"@,
        LinuxServiceView::Other(v) => v,
        LinuxServiceView::Unknown => "Unknown"@,
    }
}

impl LinuxService {
    /// The name of the value.
    pub fn to_string(&self) -> (s: String)
        ensures
            s@ == name_of_linux_service(self@),
    {
        match self {
            LinuxService::SysV => String::from_str("SysV"),
            LinuxService::InitD => String::from_str("InitD"),
            LinuxService::SystemD => String::from_str("SystemD"),
            LinuxService::Other(v) => v.clone(),
            LinuxService::Unknown => String::from_str("Unknown"),
        }
    }
}

/// The name of a value of `MacArtifacts`.
pub open spec fn name_of_mac_artifacts(a: MacArtifactsView) -> Seq<char> {
    match a {
        MacArtifactsView::Other(v) => v,
        MacArtifactsView::Unknown => "Unknown"@,
    }
}

impl MacArtifacts {
    /// The name of the value.
    pub fn to_string(&self) -> (s: String)
        ensures
            s@ == name_of_mac_artifacts(self@),
    {
        match self {
            MacArtifacts::Other(v) => v.clone(),
            MacArtifacts::Unknown => String::from_str("Unknown"),
        }
    }
}

/// The name of a value of `WebBrowsingArtifact`.
pub open spec fn name_of_web_browsing_artifact(a: WebBrowsingArtifactView) -> Seq<char> {
    match a {
        WebBrowsingArtifactView::BrowserHistory => "BrowserHistory"@,
        WebBrowsingArtifactView::BrowserStorage => "BrowserStorage"@,
        WebBrowsingArtifactView::BrowserCache => "BrowserCache"@,
        WebBrowsingArtifactView::Cookie => "Cookie"@,
        WebBrowsingArtifactView::Extension => "Extension"@,
        WebBrowsingArtifactView::ExtensionActivity => "ExtensionActivity"@,
        WebBrowsingArtifactView::FileSystem => "FileSystem"@,
        WebBrowsingArtifactView::LocalStorage => "LocalStorage"@,
        WebBrowsingArtifactView::Preferences => "Preferences"@,
        WebBrowsingArtifactView::SessionStorage => "SessionStorage"@,
        WebBrowsingArtifactView::Download => "Download"@,
        WebBrowsingArtifactView::AutoFill => "AutoFill"@,
        WebBrowsingArtifactView::RSSFeed => "RSSFeed"@,
        WebBrowsingArtifactView::Other(v) => v,
        WebBrowsingArtifactView::Unknown => "Unknown"@,
    }
}

impl WebBrowsingArtifact {
    /// The name of the value.
    pub fn to_string(&self) -> (s: String)
        ensures
            s@ == name_of_web_browsing_artifact(self@),
    {
        match self {
            WebBrowsingArtifact::BrowserHistory => String::from_str("BrowserHistory"),
            WebBrowsingArtifact::BrowserStorage => String::from_str("BrowserStorage"),
            WebBrowsingArtifact::BrowserCache => String::from_str("BrowserCache"),
            WebBrowsingArtifact::Cookie => String::from_str("Cookie"),
            WebBrowsingArtifact::Extension => String::from_str("Extension"),
            WebBrowsingArtifact::ExtensionActivity => String::from_str("ExtensionActivity"),
            WebBrowsingArtifact::FileSystem => String::from_str("FileSystem"),
            WebBrowsingArtifact::LocalStorage => String::from_str("LocalStorage"),
            WebBrowsingArtifact::Preferences => String::from_str("Preferences"),
            WebBrowsingArtifact::SessionStorage => String::from_str("SessionStorage"),
            WebBrowsingArtifact::Download => String::from_str("Download"),
            WebBrowsingArtifact::AutoFill => String::from_str("AutoFill"),
            WebBrowsingArtifact::RSSFeed => String::from_str("RSSFeed"),
            WebBrowsingArtifact::Other(v) => v.clone(),
            WebBrowsingArtifact::Unknown => String::from_str("Unknown"),
        }
    }
}

/// The name of a value of `CommonArtifact`.
pub open spec fn name_of_common_artifact(a: CommonArtifactView) -> Seq<char> {
    match a {
        CommonArtifactView::WebBrowsing(v) => "WebBrowsing::"@ + name_of_web_browsing_artifact(v),
        CommonArtifactView::Other(v) => v,
        CommonArtifactView::Unknown => "Unknown"@,
    }
}

impl CommonArtifact {
    /// The name of the value.
    pub fn to_string(&self) -> (s: String)
        ensures
            s@ == name_of_common_artifact(self@),
    {
        match self {
            CommonArtifact::WebBrowsing(v) => String::from_str("WebBrowsing::").concat(v.to_string().as_str()),
            CommonArtifact::Other(v) => v.clone(),
            CommonArtifact::Unknown => String::from_str("Unknown"),
        }
    }
}

/// The name of a value of `LinuxArtifacts`.
pub open spec fn name_of_linux_artifacts(a: LinuxArtifactsView) -> Seq<char> {
    match a {
        LinuxArtifactsView::Log(v) => "Log::"@ + v,
        LinuxArtifactsView::ShellHistory(v) => "ShellHistory::"@ + v,
        LinuxArtifactsView::Cron(v) => "Cron::"@ + v,
        LinuxArtifactsView::Service(v) => "Service::"@ + name_of_linux_service(v),
        LinuxArtifactsView::Other(v) => v,
        LinuxArtifactsView::Unknown => "Log::Unknown"@,
    }
}

impl LinuxArtifacts {
    /// The name of the value.
    pub fn to_string(&self) -> (s: String)
        ensures
            s@ == name_of_linux_artifacts(self@),
    {
        match self {
            LinuxArtifacts::Log(v) => String::from_str("Log::").concat(v.as_str()),
            LinuxArtifacts::ShellHistory(v) => String::from_str("ShellHistory::").concat(v.as_str()),
            LinuxArtifacts::Cron(v) => String::from_str("Cron::").concat(v.as_str()),
            LinuxArtifacts::Service(v) => String::from_str("Service::").concat(v.to_string().as_str()),
            LinuxArtifacts::Other(v) => v.clone(),
            LinuxArtifacts::Unknown => String::from_str("Log::Unknown"),
        }
    }
}

/// The name of a value of `WindowsArtifacts`.
pub open spec fn name_of_windows_artifacts(a: WindowsArtifactsView) -> Seq<char> {
    match a {
        WindowsArtifactsView::Registry(v) => "Registry::"@ + name_of_registry_artifacts(v),
        WindowsArtifactsView::MFT => "MFT"@,
        WindowsArtifactsView::WinEvt(v) => "WinEvt::"@ + name_of_windows_events(v),
        WindowsArtifactsView::Other(v) => v,
        WindowsArtifactsView::Prefetch => "Prefetch"@,
        WindowsArtifactsView::UAL => "UAL"@,
        WindowsArtifactsView::Clipboard => "Clipboard"@,
        WindowsArtifactsView::ScheduledTasks => "ScheduledTasks"@,
        WindowsArtifactsView::GPO => "GPO"@,
        WindowsArtifactsView::SRU => "SRU"@,
        WindowsArtifactsView::Startup => "Startup"@,
        WindowsArtifactsView::RecycleBin => "RecycleBin"@,
        WindowsArtifactsView::Unknown => "Unknown"@,
    }
}

impl WindowsArtifacts {
    /// The name of the value.
    pub fn to_string(&self) -> (s: String)
        ensures
            s@ == name_of_windows_artifacts(self@),
    {
        match self {
            WindowsArtifacts::Registry(v) => String::from_str("Registry::").concat(v.to_string().as_str()),
            WindowsArtifacts::MFT => String::from_str("MFT"),
            WindowsArtifacts::WinEvt(v) => String::from_str("WinEvt::").concat(v.to_string().as_str()),
            WindowsArtifacts::Other(v) => v.clone(),
            WindowsArtifacts::Prefetch => String::from_str("Prefetch"),
            WindowsArtifacts::UAL => String::from_str("UAL"),
            WindowsArtifacts::Clipboard => String::from_str("Clipboard"),
            WindowsArtifacts::ScheduledTasks => String::from_str("ScheduledTasks"),
            WindowsArtifacts::GPO => String::from_str("GPO"),
            WindowsArtifacts::SRU => String::from_str("SRU"),
            WindowsArtifacts::Startup => String::from_str("Startup"),
            WindowsArtifacts::RecycleBin => String::from_str("RecycleBin"),
            WindowsArtifacts::Unknown => String::from_str("Unknown"),
        }
    }
}

/// The name of an artifact.
pub open spec fn name_of_artifact(a: ArtifactView) -> Seq<char> {
    match a {
        ArtifactView::Unknown => "Unknown"@,
        ArtifactView::Other(v) => name_of_other_os(v),
        ArtifactView::Windows(v) => "Windows::"@ + name_of_windows_artifacts(v),
        ArtifactView::Linux(v) => "Linux::"@ + name_of_linux_artifacts(v),
        ArtifactView::MacOs(v) => "Mac::"@ + name_of_mac_artifacts(v),
        ArtifactView::Common(v) => "Common::"@ + name_of_common_artifact(v),
    }
}

impl Artifact {
    /// The name of the value.
    pub fn to_string(&self) -> (s: String)
        ensures
            s@ == name_of_artifact(self@),
    {
        match self {
            Artifact::Unknown => String::from_str("Unknown"),
            Artifact::Other(v) => v.to_string(),
            Artifact::Windows(v) => String::from_str("Windows::").concat(v.to_string().as_str()),
            Artifact::Linux(v) => String::from_str("Linux::").concat(v.to_string().as_str()),
            Artifact::MacOs(v) => String::from_str("Mac::").concat(v.to_string().as_str()),
            Artifact::Common(v) => String::from_str("Common::").concat(v.to_string().as_str()),
        }
    }
}

/// The registry artifact of a name: one of the known ones, or another of that name.
pub open spec fn parsed_registry_artifacts_from_str(txt: Seq<char>) -> RegistryArtifactsView {
    if txt == "Unknown"@ {
        RegistryArtifactsView::Unknown
    }     else if txt == "ShimCache"@ {
        RegistryArtifactsView::ShimCache
    }     else if txt == "ShellBags"@ {
        RegistryArtifactsView::ShellBags
    }     else if txt == "AutoRuns"@ {
        RegistryArtifactsView::AutoRuns
    } else {
        RegistryArtifactsView::Other(txt)
    }
}

/// The registry artifact that a name stands for.
pub fn registry_artifacts_from_str(txt: &str) -> (r: RegistryArtifacts)
    ensures
        r@ == parsed_registry_artifacts_from_str(txt@),
{
    if str_eq(txt, "Unknown") {
        RegistryArtifacts::Unknown
    }     else if str_eq(txt, "ShimCache") {
        RegistryArtifacts::ShimCache
    }     else if str_eq(txt, "ShellBags") {
        RegistryArtifacts::ShellBags
    }     else if str_eq(txt, "AutoRuns") {
        RegistryArtifacts::AutoRuns
    } else {
        RegistryArtifacts::Other(String::from_str(txt))
    }
}

/// The channel of events of a name: one of the known ones, or another of that name.
pub open spec fn parsed_winevt_artifacts_from_str(txt: Seq<char>) -> WindowsEventsView {
    if txt == "Unknown"@ {
        WindowsEventsView::Unknown
    }     else if txt == "Sysmon"@ {
        WindowsEventsView::Sysmon
    }     else if txt == "System"@ {
        WindowsEventsView::System
    }     else if txt == "Security"@ {
        WindowsEventsView::Security
    } else {
        WindowsEventsView::Other(txt)
    }
}

/// The channel of events that a name stands for.
pub fn winevt_artifacts_from_str(txt: &str) -> (r: WindowsEvents)
    ensures
        r@ == parsed_winevt_artifacts_from_str(txt@),
{
    if str_eq(txt, "Unknown") {
        WindowsEvents::Unknown
    }     else if str_eq(txt, "Sysmon") {
        WindowsEvents::Sysmon
    }     else if str_eq(txt, "System") {
        WindowsEvents::System
    }     else if str_eq(txt, "Security") {
        WindowsEvents::Security
    } else {
        WindowsEvents::Other(String::from_str(txt))
    }
}

/// The service manager of a name: one of the known ones, or another of that name.
pub open spec fn parsed_linux_service_from_str(txt: Seq<char>) -> LinuxServiceView {
    if txt == "SysV"@ {
        LinuxServiceView::SysV
    }     else if txt == "InitD"@ {
        LinuxServiceView::InitD
    }     else if txt == "SystemD"@ {
        LinuxServiceView::SystemD
    }     else if txt == "Unknown"@ {
        LinuxServiceView::Unknown
    } else {
        LinuxServiceView::Other(txt)
    }
}

/// The service manager that a name stands for.
pub fn linux_service_from_str(txt: &str) -> (r: LinuxService)
    ensures
        r@ == parsed_linux_service_from_str(txt@),
{
    if str_eq(txt, "SysV") {
        LinuxService::SysV
    }     else if str_eq(txt, "InitD") {
        LinuxService::InitD
    }     else if str_eq(txt, "SystemD") {
        LinuxService::SystemD
    }     else if str_eq(txt, "Unknown") {
        LinuxService::Unknown
    } else {
        LinuxService::Other(String::from_str(txt))
    }
}

/// The artifact of macOS of a name.
pub open spec fn parsed_mac_artifact_from_str(txt: Seq<char>) -> MacArtifactsView {
    if txt == "Unknown"@ {
        MacArtifactsView::Unknown
    } else {
        MacArtifactsView::Other(txt)
    }
}

/// The artifact of macOS that a name stands for.
pub fn mac_artifact_from_str(txt: &str) -> (r: MacArtifacts)
    ensures
        r@ == parsed_mac_artifact_from_str(txt@),
{
    if str_eq(txt, "Unknown") {
        MacArtifacts::Unknown
    } else {
        MacArtifacts::Other(String::from_str(txt))
    }
}

/// The artifact of a web browser of a name: one of the known ones, or another of that name.
pub open spec fn parsed_webbrowsing_artifact_from_str(txt: Seq<char>) -> WebBrowsingArtifactView {
    if txt == "AutoFill"@ {
        WebBrowsingArtifactView::AutoFill
    }     else if txt == "BrowserCache"@ {
        WebBrowsingArtifactView::BrowserCache
    }     else if txt == "BrowserHistory"@ {
        WebBrowsingArtifactView::BrowserHistory
    }     else if txt == "BrowserStorage"@ {
        WebBrowsingArtifactView::BrowserStorage
    }     else if txt == "Cookie"@ {
        WebBrowsingArtifactView::Cookie
    }     else if txt == "Download"@ {
        WebBrowsingArtifactView::Download
    }     else if txt == "Extension"@ {
        WebBrowsingArtifactView::Extension
    }     else if txt == "ExtensionActivity"@ {
        WebBrowsingArtifactView::ExtensionActivity
    }     else if txt == "FileSystem"@ {
        WebBrowsingArtifactView::FileSystem
    }     else if txt == "LocalStorage"@ {
        WebBrowsingArtifactView::LocalStorage
    }     else if txt == "Preferences"@ {
        WebBrowsingArtifactView::Preferences
    }     else if txt == "RSSFeed"@ {
        WebBrowsingArtifactView::RSSFeed
    }     else if txt == "SessionStorage"@ {
        WebBrowsingArtifactView::SessionStorage
    }     else if txt == "Unknown"@ {
        WebBrowsingArtifactView::Unknown
    } else {
        WebBrowsingArtifactView::Other(txt)
    }
}

/// The artifact of a web browser that a name stands for.
pub fn webbrowsing_artifact_from_str(txt: &str) -> (r: WebBrowsingArtifact)
    ensures
        r@ == parsed_webbrowsing_artifact_from_str(txt@),
{
    if str_eq(txt, "AutoFill") {
        WebBrowsingArtifact::AutoFill
    }     else if str_eq(txt, "BrowserCache") {
        WebBrowsingArtifact::BrowserCache
    }     else if str_eq(txt, "BrowserHistory") {
        WebBrowsingArtifact::BrowserHistory
    }     else if str_eq(txt, "BrowserStorage") {
        WebBrowsingArtifact::BrowserStorage
    }     else if str_eq(txt, "Cookie") {
        WebBrowsingArtifact::Cookie
    }     else if str_eq(txt, "Download") {
        WebBrowsingArtifact::Download
    }     else if str_eq(txt, "Extension") {
        WebBrowsingArtifact::Extension
    }     else if str_eq(txt, "ExtensionActivity") {
        WebBrowsingArtifact::ExtensionActivity
    }     else if str_eq(txt, "FileSystem") {
        WebBrowsingArtifact::FileSystem
    }     else if str_eq(txt, "LocalStorage") {
        WebBrowsingArtifact::LocalStorage
    }     else if str_eq(txt, "Preferences") {
        WebBrowsingArtifact::Preferences
    }     else if str_eq(txt, "RSSFeed") {
        WebBrowsingArtifact::RSSFeed
    }     else if str_eq(txt, "SessionStorage") {
        WebBrowsingArtifact::SessionStorage
    }     else if str_eq(txt, "Unknown") {
        WebBrowsingArtifact::Unknown
    } else {
        WebBrowsingArtifact::Other(String::from_str(txt))
    }
}

/// What stands before the first pair of colons of a name, or the whole name
/// where it holds none.
pub open spec fn head_of(txt: Seq<char>) -> Seq<char> {
    txt.take(first_double_colon(txt))
}

/// What stands after the first pair of colons of a name, or nothing where
/// it holds none.
pub open spec fn tail_of(txt: Seq<char>) -> Seq<char> {
    if first_double_colon(txt) < txt.len() {
        txt.skip(first_double_colon(txt) + 2)
    } else {
        Seq::<char>::empty()
    }
}

/// Whether a name holds a pair of colons.
pub open spec fn has_tail(txt: Seq<char>) -> bool {
    first_double_colon(txt) < txt.len()
}

/// The artifact of Windows of a name: the kind stands before the first pair
/// of colons, and what follows the pair says more of a registry artifact or
/// an event. A kind that is not known gives another artifact, named by
/// what follows the pair.
pub open spec fn parsed_windows_artifacts_from_str(txt: Seq<char>) -> WindowsArtifactsView {
    let artifact = head_of(txt);
    let subartifact = tail_of(txt);
    if artifact == "Unknown"@ {
        WindowsArtifactsView::Unknown
    } else if artifact == "Registry"@ {
        WindowsArtifactsView::Registry(parsed_registry_artifacts_from_str(subartifact))
    } else if artifact == "MFT"@ {
        WindowsArtifactsView::MFT
    } else if artifact == "Prefetch"@ {
        WindowsArtifactsView::Prefetch
    } else if artifact == "WinEvt"@ {
        WindowsArtifactsView::WinEvt(parsed_winevt_artifacts_from_str(subartifact))
    } else if artifact == "UAL"@ {
        WindowsArtifactsView::UAL
    } else if artifact == "Clipboard"@ {
        WindowsArtifactsView::Clipboard
    } else if artifact == "ScheduledTasks"@ {
        WindowsArtifactsView::ScheduledTasks
    } else if artifact == "GPO"@ {
        WindowsArtifactsView::GPO
    } else if artifact == "SRU"@ {
        WindowsArtifactsView::SRU
    } else if artifact == "Startup"@ {
        WindowsArtifactsView::Startup
    } else if artifact == "RecycleBin"@ {
        WindowsArtifactsView::RecycleBin
    } else {
        WindowsArtifactsView::Other(subartifact)
    }
}

/// The two parts of a name: what stands before its first pair of colons and
/// what stands after it; the name itself and nothing where it holds no pair.
fn head_and_tail<'a>(txt: &'a str) -> (r: (&'a str, &'a str))
    ensures
        r.0@ == head_of(txt@),
        r.1@ == tail_of(txt@),
{
    proof {
        reveal_strlit("");
    }
    match split_once_double_colon(txt) {
        Some(v) => v,
        None => {
            assert(txt@.take(txt@.len() as int) =~= txt@);
            assert(""@ =~= Seq::<char>::empty());
            (txt, "")
        },
    }
}

/// The artifact of Windows that a name stands for.
pub fn windows_artifacts_from_str(txt: &str) -> (r: WindowsArtifacts)
    ensures
        r@ == parsed_windows_artifacts_from_str(txt@),
{
    let (artifact, subartifact) = head_and_tail(txt);
    if str_eq(artifact, "Unknown") {
        WindowsArtifacts::Unknown
    } else if str_eq(artifact, "Registry") {
        WindowsArtifacts::Registry(registry_artifacts_from_str(subartifact))
    } else if str_eq(artifact, "MFT") {
        WindowsArtifacts::MFT
    } else if str_eq(artifact, "Prefetch") {
        WindowsArtifacts::Prefetch
    } else if str_eq(artifact, "WinEvt") {
        WindowsArtifacts::WinEvt(winevt_artifacts_from_str(subartifact))
    } else if str_eq(artifact, "UAL") {
        WindowsArtifacts::UAL
    } else if str_eq(artifact, "Clipboard") {
        WindowsArtifacts::Clipboard
    } else if str_eq(artifact, "ScheduledTasks") {
        WindowsArtifacts::ScheduledTasks
    } else if str_eq(artifact, "GPO") {
        WindowsArtifacts::GPO
    } else if str_eq(artifact, "SRU") {
        WindowsArtifacts::SRU
    } else if str_eq(artifact, "Startup") {
        WindowsArtifacts::Startup
    } else if str_eq(artifact, "RecycleBin") {
        WindowsArtifacts::RecycleBin
    } else {
        WindowsArtifacts::Other(String::from_str(subartifact))
    }
}

/// The artifact of Linux of a name: the kind stands before the first pair of
/// colons and what follows the pair names the artifact. A service is named
/// by the whole name. A name without a pair of colons is unknown.
pub open spec fn parsed_linux_artifacts_from_str(txt: Seq<char>) -> LinuxArtifactsView {
    let artifact = head_of(txt);
    let subartifact = tail_of(txt);
    if !has_tail(txt) {
        LinuxArtifactsView::Unknown
    } else if artifact == "Log"@ {
        LinuxArtifactsView::Log(subartifact)
    } else if artifact == "ShellHistory"@ {
        LinuxArtifactsView::ShellHistory(subartifact)
    } else if artifact == "Cron"@ {
        LinuxArtifactsView::Cron(subartifact)
    } else if artifact == "Service"@ {
        LinuxArtifactsView::Service(parsed_linux_service_from_str(txt))
    } else {
        LinuxArtifactsView::Other(subartifact)
    }
}

/// The artifact of Linux that a name stands for.
pub fn linux_artifacts_from_str(txt: &str) -> (r: LinuxArtifacts)
    ensures
        r@ == parsed_linux_artifacts_from_str(txt@),
{
    let (artifact, subartifact) = match split_once_double_colon(txt) {
        Some(v) => v,
        None => {
            return LinuxArtifacts::Unknown;
        },
    };
    if str_eq(artifact, "Log") {
        LinuxArtifacts::Log(String::from_str(subartifact))
    } else if str_eq(artifact, "ShellHistory") {
        LinuxArtifacts::ShellHistory(String::from_str(subartifact))
    } else if str_eq(artifact, "Cron") {
        LinuxArtifacts::Cron(String::from_str(subartifact))
    } else if str_eq(artifact, "Service") {
        LinuxArtifacts::Service(linux_service_from_str(txt))
    } else {
        LinuxArtifacts::Other(String::from_str(subartifact))
    }
}

/// The common artifact of a name: the kind stands before the first pair of
/// colons, and what follows the pair names the artifact of a web browser. A
/// kind that is not known gives another artifact of the whole name. A name
/// without a pair of colons is unknown.
pub open spec fn parsed_common_artifact_from_str(txt: Seq<char>) -> CommonArtifactView {
    let artifact = head_of(txt);
    if !has_tail(txt) || artifact == "Unknown"@ {
        CommonArtifactView::Unknown
    } else if artifact == "WebBrowsing"@ {
        CommonArtifactView::WebBrowsing(parsed_webbrowsing_artifact_from_str(tail_of(txt)))
    } else {
        CommonArtifactView::Other(txt)
    }
}

/// The common artifact that a name stands for.
pub fn common_artifact_from_str(txt: &str) -> (r: CommonArtifact)
    ensures
        r@ == parsed_common_artifact_from_str(txt@),
{
    let (artifact, subartifact) = match split_once_double_colon(txt) {
        Some(v) => v,
        None => {
            return CommonArtifact::Unknown;
        },
    };
    if str_eq(artifact, "Unknown") {
        CommonArtifact::Unknown
    } else if str_eq(artifact, "WebBrowsing") {
        CommonArtifact::WebBrowsing(webbrowsing_artifact_from_str(subartifact))
    } else {
        CommonArtifact::Other(String::from_str(txt))
    }
}

/// The artifact of another operating system of a name: the system stands
/// before the first pair of colons and the artifact after it. In a name
/// without a pair of colons both are unknown.
pub open spec fn parsed_other_artifact_from_str(txt: Seq<char>) -> OtherOSView {
    if has_tail(txt) {
        OtherOSView { os: head_of(txt), artifact: tail_of(txt) }
    } else {
        OtherOSView { os: "Unknown"@, artifact: "Unknown"@ }
    }
}

/// The artifact of another operating system that a name stands for.
pub fn other_artifact_from_str(txt: &str) -> (r: OtherOS)
    ensures
        r@ == parsed_other_artifact_from_str(txt@),
{
    match split_once_double_colon(txt) {
        Some((os, subartifact)) => OtherOS {
            os: String::from_str(os),
            artifact: String::from_str(subartifact),
        },
        None => OtherOS {
            os: String::from_str("Unknown"),
            artifact: String::from_str("Unknown"),
        },
    }
}

/// The artifact of a name: the operating system stands before the first
/// pair of colons, and what follows the pair names the artifact of that
/// system. A system that is not known gives an artifact of another system.
/// A name without a pair of colons is unknown.
pub open spec fn parsed_artifact_from_str(txt: Seq<char>) -> ArtifactView {
    let os = head_of(txt);
    let artifact = tail_of(txt);
    if !has_tail(txt) || os == "Unknown"@ {
        ArtifactView::Unknown
    } else if os == "Windows"@ {
        ArtifactView::Windows(parsed_windows_artifacts_from_str(artifact))
    } else if os == "Linux"@ {
        ArtifactView::Linux(parsed_linux_artifacts_from_str(artifact))
    } else if os == "MacOs"@ {
        ArtifactView::MacOs(parsed_mac_artifact_from_str(artifact))
    } else if os == "Common"@ {
        ArtifactView::Common(parsed_common_artifact_from_str(artifact))
    } else {
        ArtifactView::Other(parsed_other_artifact_from_str(txt))
    }
}

/// The artifact that a name stands for.
pub fn artifact_from_str(txt: &str) -> (r: Artifact)
    ensures
        r@ == parsed_artifact_from_str(txt@),
{
    let (os, artifact) = match split_once_double_colon(txt) {
        Some(v) => v,
        None => {
            return Artifact::Unknown;
        },
    };
    if str_eq(os, "Unknown") {
        Artifact::Unknown
    } else if str_eq(os, "Windows") {
        Artifact::Windows(windows_artifacts_from_str(artifact))
    } else if str_eq(os, "Linux") {
        Artifact::Linux(linux_artifacts_from_str(artifact))
    } else if str_eq(os, "MacOs") {
        Artifact::MacOs(mac_artifact_from_str(artifact))
    } else if str_eq(os, "Common") {
        Artifact::Common(common_artifact_from_str(artifact))
    } else {
        Artifact::Other(other_artifact_from_str(txt))
    }
}

impl From<WindowsArtifacts> for Artifact {
    fn from(value: WindowsArtifacts) -> (r: Self) {
        Artifact::Windows(value)
    }
}

impl FromSpecImpl<WindowsArtifacts> for Artifact {
    open spec fn obeys_from_spec() -> bool {
        true
    }

    open spec fn from_spec(value: WindowsArtifacts) -> Self {
        Artifact::Windows(value)
    }
}

impl From<RegistryArtifacts> for Artifact {
    fn from(value: RegistryArtifacts) -> (r: Self) {
        Artifact::Windows(WindowsArtifacts::Registry(value))
    }
}

impl FromSpecImpl<RegistryArtifacts> for Artifact {
    open spec fn obeys_from_spec() -> bool {
        true
    }

    open spec fn from_spec(value: RegistryArtifacts) -> Self {
        Artifact::Windows(WindowsArtifacts::Registry(value))
    }
}

impl From<WindowsEvents> for Artifact {
    fn from(value: WindowsEvents) -> (r: Self) {
        Artifact::Windows(WindowsArtifacts::WinEvt(value))
    }
}

impl FromSpecImpl<WindowsEvents> for Artifact {
    open spec fn obeys_from_spec() -> bool {
        true
    }

    open spec fn from_spec(value: WindowsEvents) -> Self {
        Artifact::Windows(WindowsArtifacts::WinEvt(value))
    }
}

impl From<String> for WindowsArtifacts {
    fn from(value: String) -> (r: Self) {
        WindowsArtifacts::Other(value)
    }
}

impl FromSpecImpl<String> for WindowsArtifacts {
    open spec fn obeys_from_spec() -> bool {
        true
    }

    open spec fn from_spec(value: String) -> Self {
        WindowsArtifacts::Other(value)
    }
}

impl From<String> for RegistryArtifacts {
    fn from(value: String) -> (r: Self) {
        RegistryArtifacts::Other(value)
    }
}

impl FromSpecImpl<String> for RegistryArtifacts {
    open spec fn obeys_from_spec() -> bool {
        true
    }

    open spec fn from_spec(value: String) -> Self {
        RegistryArtifacts::Other(value)
    }
}

impl From<String> for WindowsEvents {
    fn from(value: String) -> (r: Self) {
        WindowsEvents::Other(value)
    }
}

impl FromSpecImpl<String> for WindowsEvents {
    open spec fn obeys_from_spec() -> bool {
        true
    }

    open spec fn from_spec(value: String) -> Self {
        WindowsEvents::Other(value)
    }
}

impl From<&str> for Artifact {
    fn from(value: &str) -> (r: Self)
        ensures
            r@ == parsed_artifact_from_str(value@),
    {
        artifact_from_str(value)
    }
}

/// The conversion makes a value of its own, which no expression of a
/// contract names: what comes out is stated by the conversion itself.
impl FromSpecImpl<&str> for Artifact {
    open spec fn obeys_from_spec() -> bool {
        false
    }

    open spec fn from_spec(value: &str) -> Self {
        arbitrary()
    }
}

impl From<&String> for Artifact {
    fn from(value: &String) -> (r: Self)
        ensures
            r@ == parsed_artifact_from_str(value@),
    {
        artifact_from_str(value.as_str())
    }
}

/// The conversion makes a value of its own, which no expression of a
/// contract names: what comes out is stated by the conversion itself.
impl FromSpecImpl<&String> for Artifact {
    open spec fn obeys_from_spec() -> bool {
        false
    }

    open spec fn from_spec(value: &String) -> Self {
        arbitrary()
    }
}

impl From<String> for Artifact {
    fn from(value: String) -> (r: Self)
        ensures
            r@ == parsed_artifact_from_str(value@),
    {
        artifact_from_str(value.as_str())
    }
}

/// The conversion makes a value of its own, which no expression of a
/// contract names: what comes out is stated by the conversion itself.
impl FromSpecImpl<String> for Artifact {
    open spec fn obeys_from_spec() -> bool {
        false
    }

    open spec fn from_spec(value: String) -> Self {
        arbitrary()
    }
}

} // verus!
