use forensic_rs::activity::{ActivityType, ProgramExecution};
use forensic_rs::artifact::{
    artifact_from_str, common_artifact_from_str, linux_artifacts_from_str, linux_service_from_str,
    mac_artifact_from_str, other_artifact_from_str, registry_artifacts_from_str,
    webbrowsing_artifact_from_str, windows_artifacts_from_str, winevt_artifacts_from_str, Artifact,
    CommonArtifact, LinuxArtifacts, LinuxService, MacArtifacts, OtherOS, RegistryArtifacts,
    WebBrowsingArtifact, WindowsArtifacts, WindowsEvents,
};
use forensic_rs::traits::vfs::{VDirEntry, VFileType, VMetadata};

#[test]
fn artifacts_are_parsed_by_operating_system() {
    assert_eq!(
        artifact_from_str("Windows::Registry::ShellBags"),
        Artifact::Windows(WindowsArtifacts::Registry(RegistryArtifacts::ShellBags))
    );
    assert_eq!(
        artifact_from_str("Windows::WinEvt::Microsoft-Windows-Sysmon/Operational"),
        Artifact::Windows(WindowsArtifacts::WinEvt(WindowsEvents::Other(
            "Microsoft-Windows-Sysmon/Operational".to_string()
        )))
    );
    assert_eq!(artifact_from_str("Windows::MFT"), Artifact::Windows(WindowsArtifacts::MFT));
    assert_eq!(
        artifact_from_str("Linux::Log::/var/log/auth.log"),
        Artifact::Linux(LinuxArtifacts::Log("/var/log/auth.log".to_string()))
    );
    assert_eq!(artifact_from_str("Linux::Log"), Artifact::Linux(LinuxArtifacts::Unknown));
    assert_eq!(
        artifact_from_str("MacOs::Plist"),
        Artifact::MacOs(MacArtifacts::Other("Plist".to_string()))
    );
    assert_eq!(
        artifact_from_str("Common::WebBrowsing::Cookie"),
        Artifact::Common(CommonArtifact::WebBrowsing(WebBrowsingArtifact::Cookie))
    );
    assert_eq!(
        artifact_from_str("Solaris::Audit::bsm"),
        Artifact::Other(OtherOS { os: "Solaris".to_string(), artifact: "Audit::bsm".to_string() })
    );
    assert_eq!(artifact_from_str("Unknown::x"), Artifact::Unknown);
    assert_eq!(artifact_from_str("Windows"), Artifact::Unknown);
    assert_eq!(artifact_from_str(""), Artifact::Unknown);
    assert_eq!(artifact_from_str("::"), Artifact::Other(OtherOS { os: String::new(), artifact: String::new() }));
}

#[test]
fn windows_artifacts_are_parsed() {
    assert_eq!(windows_artifacts_from_str("Prefetch"), WindowsArtifacts::Prefetch);
    assert_eq!(windows_artifacts_from_str("UAL"), WindowsArtifacts::UAL);
    assert_eq!(windows_artifacts_from_str("Clipboard"), WindowsArtifacts::Clipboard);
    assert_eq!(windows_artifacts_from_str("ScheduledTasks"), WindowsArtifacts::ScheduledTasks);
    assert_eq!(windows_artifacts_from_str("GPO"), WindowsArtifacts::GPO);
    assert_eq!(windows_artifacts_from_str("SRU"), WindowsArtifacts::SRU);
    assert_eq!(windows_artifacts_from_str("Startup"), WindowsArtifacts::Startup);
    assert_eq!(windows_artifacts_from_str("RecycleBin"), WindowsArtifacts::RecycleBin);
    assert_eq!(windows_artifacts_from_str("Unknown"), WindowsArtifacts::Unknown);
    assert_eq!(
        windows_artifacts_from_str("Registry"),
        WindowsArtifacts::Registry(RegistryArtifacts::Other(String::new()))
    );
    assert_eq!(
        windows_artifacts_from_str("WinEvt::Security"),
        WindowsArtifacts::WinEvt(WindowsEvents::Security)
    );
    // An unknown kind is named by what follows the colons.
    assert_eq!(windows_artifacts_from_str("Amcache::hve"), WindowsArtifacts::Other("hve".to_string()));
    assert_eq!(windows_artifacts_from_str("Amcache"), WindowsArtifacts::Other(String::new()));
}

#[test]
fn simple_kinds_are_parsed_by_name() {
    assert_eq!(registry_artifacts_from_str("ShimCache"), RegistryArtifacts::ShimCache);
    assert_eq!(registry_artifacts_from_str("AutoRuns"), RegistryArtifacts::AutoRuns);
    assert_eq!(registry_artifacts_from_str("Unknown"), RegistryArtifacts::Unknown);
    assert_eq!(registry_artifacts_from_str("x"), RegistryArtifacts::Other("x".to_string()));
    assert_eq!(winevt_artifacts_from_str("Sysmon"), WindowsEvents::Sysmon);
    assert_eq!(winevt_artifacts_from_str("System"), WindowsEvents::System);
    assert_eq!(winevt_artifacts_from_str("sysmon"), WindowsEvents::Other("sysmon".to_string()));
    assert_eq!(linux_service_from_str("SysV"), LinuxService::SysV);
    assert_eq!(linux_service_from_str("InitD"), LinuxService::InitD);
    assert_eq!(linux_service_from_str("SystemD"), LinuxService::SystemD);
    assert_eq!(linux_service_from_str("Unknown"), LinuxService::Unknown);
    assert_eq!(linux_service_from_str("runit"), LinuxService::Other("runit".to_string()));
    assert_eq!(mac_artifact_from_str("Unknown"), MacArtifacts::Unknown);
    assert_eq!(mac_artifact_from_str(""), MacArtifacts::Other(String::new()));
    assert_eq!(webbrowsing_artifact_from_str("RSSFeed"), WebBrowsingArtifact::RSSFeed);
    assert_eq!(webbrowsing_artifact_from_str("AutoFill"), WebBrowsingArtifact::AutoFill);
    assert_eq!(
        webbrowsing_artifact_from_str("Bookmarks"),
        WebBrowsingArtifact::Other("Bookmarks".to_string())
    );
}

#[test]
fn linux_and_common_artifacts_are_parsed() {
    assert_eq!(
        linux_artifacts_from_str("ShellHistory::.bash_history"),
        LinuxArtifacts::ShellHistory(".bash_history".to_string())
    );
    assert_eq!(linux_artifacts_from_str("Cron::daily"), LinuxArtifacts::Cron("daily".to_string()));
    // A service is named by the whole text.
    assert_eq!(
        linux_artifacts_from_str("Service::SystemD"),
        LinuxArtifacts::Service(LinuxService::Other("Service::SystemD".to_string()))
    );
    assert_eq!(linux_artifacts_from_str("Mail::inbox"), LinuxArtifacts::Other("inbox".to_string()));
    assert_eq!(linux_artifacts_from_str("Cron"), LinuxArtifacts::Unknown);
    assert_eq!(common_artifact_from_str("WebBrowsing"), CommonArtifact::Unknown);
    assert_eq!(common_artifact_from_str("Unknown::x"), CommonArtifact::Unknown);
    assert_eq!(
        common_artifact_from_str("WebBrowsing::Download"),
        CommonArtifact::WebBrowsing(WebBrowsingArtifact::Download)
    );
    assert_eq!(
        common_artifact_from_str("Mail::inbox"),
        CommonArtifact::Other("Mail::inbox".to_string())
    );
    assert_eq!(
        other_artifact_from_str("Plan9"),
        OtherOS { os: "Unknown".to_string(), artifact: "Unknown".to_string() }
    );
    assert_eq!(
        other_artifact_from_str("Plan9::factotum"),
        OtherOS { os: "Plan9".to_string(), artifact: "factotum".to_string() }
    );
}

#[test]
fn artifacts_have_names() {
    assert_eq!(Artifact::Unknown.to_string(), "Unknown");
    assert_eq!(
        Artifact::Windows(WindowsArtifacts::Registry(RegistryArtifacts::ShellBags)).to_string(),
        "Windows::Registry::ShellBags"
    );
    assert_eq!(
        Artifact::Windows(WindowsArtifacts::WinEvt(WindowsEvents::Sysmon)).to_string(),
        "Windows::WinEvt::Sysmon"
    );
    assert_eq!(Artifact::Windows(WindowsArtifacts::Prefetch).to_string(), "Windows::Prefetch");
    assert_eq!(
        Artifact::Linux(LinuxArtifacts::Service(LinuxService::SystemD)).to_string(),
        "Linux::Service::SystemD"
    );
    assert_eq!(Artifact::Linux(LinuxArtifacts::Unknown).to_string(), "Linux::Log::Unknown");
    assert_eq!(Artifact::MacOs(MacArtifacts::Other("Plist".to_string())).to_string(), "Mac::Plist");
    assert_eq!(
        Artifact::Common(CommonArtifact::WebBrowsing(WebBrowsingArtifact::BrowserHistory))
            .to_string(),
        "Common::WebBrowsing::BrowserHistory"
    );
    assert_eq!(
        Artifact::Other(OtherOS { os: "Solaris".to_string(), artifact: "bsm".to_string() })
            .to_string(),
        "Solaris::bsm"
    );
    // The shim cache goes by the name of another artifact.
    assert_eq!(RegistryArtifacts::ShimCache.to_string(), "InitD");
    assert_eq!(RegistryArtifacts::Other("x".to_string()).to_string(), "x");
    assert_eq!(Artifact::default(), Artifact::Unknown);
    assert_eq!(WindowsArtifacts::default(), WindowsArtifacts::Unknown);
}

#[test]
fn a_name_is_parsed_back_to_its_artifact() {
    for artifact in [
        Artifact::Windows(WindowsArtifacts::Registry(RegistryArtifacts::AutoRuns)),
        Artifact::Windows(WindowsArtifacts::WinEvt(WindowsEvents::Security)),
        Artifact::Windows(WindowsArtifacts::RecycleBin),
        Artifact::Linux(LinuxArtifacts::Cron("weekly".to_string())),
        Artifact::Common(CommonArtifact::WebBrowsing(WebBrowsingArtifact::LocalStorage)),
    ] {
        assert_eq!(artifact_from_str(&artifact.to_string()), artifact.clone());
    }
}

#[test]
fn program_execution_is_an_activity() {
    let execution = ProgramExecution::new("C:\\Windows\\notepad.exe".to_string());
    assert_eq!(execution.to_string(), "C:\\Windows\\notepad.exe");
    let activity: ActivityType = execution.into();
    assert!(matches!(activity, ActivityType::ProgramExecution(p) if p.executable == "C:\\Windows\\notepad.exe"));
    assert!(matches!(ActivityType::default(), ActivityType::Unknown));
}

#[test]
fn metadata_gives_the_epoch_for_a_time_that_is_not_kept() {
    let meta = VMetadata {
        created: Some(1_700_000_000),
        accessed: None,
        modified: Some(5),
        file_type: VFileType::Directory,
        size: 4096,
    };
    assert_eq!(meta.created(), 1_700_000_000);
    assert_eq!(meta.accessed(), 0);
    assert_eq!(meta.modified(), 5);
    assert_eq!(meta.created_opt(), Some(&1_700_000_000));
    assert_eq!(meta.accessed_opt(), None);
    assert_eq!(meta.modified_opt(), Some(&5));
    assert!(meta.is_dir());
    assert!(!meta.is_file());
    assert!(!meta.is_symlink());
    assert_eq!(meta.len(), 4096);
    let file = VMetadata { created: None, accessed: None, modified: None, file_type: VFileType::File, size: 0 };
    assert!(file.is_file() && !file.is_dir());
    let link = VMetadata { created: None, accessed: None, modified: None, file_type: VFileType::Symlink, size: 0 };
    assert!(link.is_symlink() && !link.is_file());
}

#[test]
fn a_directory_entry_is_written_as_its_name() {
    assert_eq!(VDirEntry::Directory("dir".to_string()).to_string(), "dir");
    assert_eq!(VDirEntry::File("file.txt".to_string()).to_string(), "file.txt");
    assert_eq!(VDirEntry::Symlink("link".to_string()).to_string(), "link");
}

#[test]
fn a_context_is_changed_field_by_field() {
    let mut context = forensic_rs::context::ForensicContext::default();
    assert_eq!(context.host, "");
    assert_eq!(context.tenant, "");
    assert_eq!(context.artifact, Artifact::Unknown);
    context.set_host("Agent007".to_string());
    context.set_tenant("MI6".to_string());
    context.set_artifact(RegistryArtifacts::AutoRuns.into());
    assert_eq!(context.host, "Agent007");
    assert_eq!(context.tenant, "MI6");
    assert_eq!(
        context.artifact,
        Artifact::Windows(WindowsArtifacts::Registry(RegistryArtifacts::AutoRuns))
    );
    let copy = context.clone();
    assert_eq!(copy.host, "Agent007");
    assert_eq!(copy.artifact, context.artifact);
}
