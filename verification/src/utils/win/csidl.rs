//! The known folders of Windows: their identifiers, and the paths that the
//! identifiers stand for.
use crate::environment::{interpolate_bounded, interpolated, UserEnvVars};
use crate::text::{ascii_upper_text, ascii_uppercase, char_len, find_char, first_index_of, slice, str_eq};
use vstd::prelude::*;
use vstd::string::*;

verus! {

pub const FOLDERID_ACCOUNT_PICTURES: &'static str = "{008CA0B1-55B4-4C56-B8A8-4DE4B299D3BE}";

pub const FOLDERID_ADMINTOOLS: &'static str = "{724EF170-A42D-4FEF-9F26-B60E846FBA4F}";

pub const FOLDERID_APPDATADESKTOP: &'static str = "{B2C5E279-7ADD-439F-B28C-C41FE1BBF672}";

pub const FOLDERID_APPDATADOCUMENTS: &'static str = "{7BE16610-1F7F-44AC-BFF0-83E15F2FFCA1}";

pub const FOLDERID_APPDATAFAVORITES: &'static str = "{7CFBEFBC-DE1F-45AA-B843-A542AC536CC9}";

pub const FOLDERID_APPDATAPROGRAMDATA: &'static str = "{559D40A3-A036-40FA-AF61-84CB430A4D34}";

pub const FOLDERID_APPLICATIONSHORTCUTS: &'static str = "{A3918781-E5F2-4890-B3D9-A7E54332328C}";

pub const FOLDERID_CAMERAROLL: &'static str = "{AB5FB87B-7CE2-4F83-915D-550846C9537B}";

pub const FOLDERID_CDBURNING: &'static str = "{9E52AB10-F80D-49DF-ACB8-4330F5687855}";

pub const FOLDERID_COMMONADMINTOOLS: &'static str = "{D0384E7D-BAC3-4797-8F14-CBA229B392B5}";

pub const FOLDERID_COMMONOEMLINKS: &'static str = "{C1BAE2D0-10DF-4334-BEDD-7AA20B227A9D}";

pub const FOLDERID_COMMONPROGRAMS: &'static str = "{0139D44E-6AFE-49F2-8690-3DAFCAE6FFB8}";

pub const FOLDERID_COMMONSTARTMENU: &'static str = "{A4115719-D62E-491D-AA7C-E74B8BE3B067}";

pub const FOLDERID_COMMONSTARTUP: &'static str = "{82A5EA35-D9CD-47C5-9629-E15D2F714E6E}";

pub const FOLDERID_COMMONTEMPLATES: &'static str = "{B94237E7-57AC-4347-9151-B08C6C32D1F7}";

pub const FOLDERID_CONTACTS: &'static str = "{56784854-C6CB-462B-8169-88E350ACB882}";

pub const FOLDERID_COOKIES: &'static str = "{2B0F765D-C0E9-4171-908E-08A611B84FF6}";

pub const FOLDERID_DESKTOP: &'static str = "{B4BFCC3A-DB2C-424C-B029-7FE99A87C641}";

pub const FOLDERID_DEVICEMETADATASTORE: &'static str = "{5CE4A5E9-E4EB-479D-B89F-130C02886155}";

pub const FOLDERID_DOCUMENTS: &'static str = "{FDD39AD0-238F-46AF-ADB4-6C85480369C7}";

pub const FOLDERID_DOCUMENTSLIBRARY: &'static str = "{7B0DB17D-9CD2-4A93-9733-46CC89022E7C}";

pub const FOLDERID_DOWNLOADS: &'static str = "{374DE290-123F-4565-9164-39C4925E467B}";

pub const FOLDERID_FAVORITES: &'static str = "{1777F761-68AD-4D8A-87BD-30B759FA33DD}";

pub const FOLDERID_FONTS: &'static str = "{FD228CB7-AE11-4AE3-864C-16F3910AB8FE}";

pub const FOLDERID_GAMETASKS: &'static str = "{054FAE61-4DD8-4787-80B6-090220C4B700}";

pub const FOLDERID_HISTORY: &'static str = "{D9DC8A3B-B784-432E-A781-5A1130A75963}";

pub const FOLDERID_IMPLICITAPPSHORTCUTS: &'static str = "{BCB5256F-79F6-4CEE-B725-DC34E402FD46}";

pub const FOLDERID_INTERNETCACHE: &'static str = "{352481E8-33BE-4251-BA85-6007CAEDCF9D}";

pub const FOLDERID_LIBRARIES: &'static str = "{1B3EA5DC-B587-4786-B4EF-BD1DC332AEAE}";

pub const FOLDERID_LINKS: &'static str = "{BFB9D5E0-C6A9-404C-B2B2-AE6DB6AF4968}";

pub const FOLDERID_LOCALAPPDATA: &'static str = "{F1B32785-6FBA-4FCF-9D55-7B8E7F157091}";

pub const FOLDERID_LOCALAPPDATALOW: &'static str = "{A520A1A4-1780-4FF6-BD18-167343C5AF16}";

pub const FOLDERID_MUSIC: &'static str = "{4BD8D571-6D19-48D3-BE97-422220080E43}";

pub const FOLDERID_MUSICLIBRARY: &'static str = "{2112AB0A-C86A-4FFE-A368-0DE96E47012E}";

pub const FOLDERID_NETHOOD: &'static str = "{C5ABBF53-E17F-4121-8900-86626FC2C973}";

pub const FOLDERID_OBJECTS3D: &'static str = "{31C0DD25-9439-4F12-BF41-7FF4EDA38722}";

pub const FOLDERID_ORIGINALIMAGES: &'static str = "{2C36C0AA-5812-4B87-BFD0-4CD0DFB19B39}";

pub const FOLDERID_PHOTOALBUMS: &'static str = "{69D2CF90-FC33-4FB7-9A0C-EBB0F0FCB43C}";

pub const FOLDERID_PICTURESLIBRARY: &'static str = "{A990AE9F-A03B-4E80-94BC-9912D7504104}";

pub const FOLDERID_PICTURES: &'static str = "{33E28130-4E1E-4676-835A-98395C3BC3BB}";

pub const FOLDERID_PLAYLISTS: &'static str = "{DE92C1C7-837F-4F69-A3BB-86E631204A23}";

pub const FOLDERID_PRINTHOOD: &'static str = "{9274BD8D-CFD1-41C3-B35E-B13F55A758F4}";

pub const FOLDERID_PROFILE: &'static str = "{5E6C858F-0E22-4760-9AFE-EA3317B67173}";

pub const FOLDERID_PROGRAMDATA: &'static str = "{62AB5D82-FDC1-4DC3-A9DD-070D1D495D97}";

pub const FOLDERID_PROGRAMFILES: &'static str = "{905E63B6-C1BF-494E-B29C-65B732D3D21A}";

pub const FOLDERID_PROGRAMFILESX64: &'static str = "{6D809377-6AF0-444B-8957-A3773F02200E}";

pub const FOLDERID_PROGRAMFILESX86: &'static str = "{7C5A40EF-A0FB-4BFC-874A-C0F2E0B9FA8E}";

pub const FOLDERID_PROGRAMFILESCOMMON: &'static str = "{F7F1ED05-9F6D-47A2-AAAE-29D317C6F066}";

pub const FOLDERID_PROGRAMFILESCOMMONX64: &'static str = "{6365D5A7-0F0D-45E5-87F6-0DA56B6A4F7D}";

pub const FOLDERID_PROGRAMFILESCOMMONX86: &'static str = "{DE974D24-D9C6-4D3E-BF91-F4455120B917}";

pub const FOLDERID_PROGRAMS: &'static str = "{A77F5D77-2E2B-44C3-A6A2-ABA601054A51}";

pub const FOLDERID_PUBLIC: &'static str = "{DFDF76A2-C82A-4D63-906A-5644AC457385}";

pub const FOLDERID_PUBLICDESKTOP: &'static str = "{C4AA340D-F20F-4863-AFEF-F87EF2E6BA25}";

pub const FOLDERID_PUBLICDOCUMENTS: &'static str = "{ED4824AF-DCE4-45A8-81E2-FC7965083634}";

pub const FOLDERID_PUBLICDOWNLOADS: &'static str = "{3D644C9B-1FB8-4F30-9B45-F670235F79C0}";

pub const FOLDERID_PUBLICGAMETASKS: &'static str = "{DEBF2536-E1A8-4C59-B6A2-414586476AEA}";

pub const FOLDERID_PUBLICLIBRARIES: &'static str = "{48DAF80B-E6CF-4F4E-B800-0E69D84EE384}";

pub const FOLDERID_PUBLICMUSIC: &'static str = "{3214FAB5-9757-4298-BB61-92A9DEAA44FF}";

pub const FOLDERID_PUBLICPICTURES: &'static str = "{B6EBFB86-6907-413C-9AF7-4FC2ABF07CC5}";

pub const FOLDERID_PUBLICRINGTONES: &'static str = "{E555AB60-153B-4D17-9F04-A5FE99FC15EC}";

pub const FOLDERID_PUBLICUSERTILES: &'static str = "{0482AF6C-08F1-4C34-8C90-E17EC98B1E17}";

pub const FOLDERID_PUBLICVIDEOS: &'static str = "{2400183A-6185-49FB-A2D8-4A392A602BA3}";

pub const FOLDERID_QUICKLAUNCH: &'static str = "{52A4F021-7B75-48A9-9F6B-4B87A210BC8F}";

pub const FOLDERID_RECENT: &'static str = "{AE50C081-EBD2-438A-8655-8A092E34987A}";

pub const FOLDERID_RECORDEDTVLIBRARY: &'static str = "{1A6FDBA2-F42D-4358-A798-B74D745926C5}";

pub const FOLDERID_RESOURCEDIR: &'static str = "{8AD10C31-2ADB-4296-A8F7-E4701232C972}";

pub const FOLDERID_ROAMINGAPPDATA: &'static str = "{3EB685DB-65F9-4CF6-A03A-E3EF65729F3D}";

pub const FOLDERID_ROAMEDTILEIMAGES: &'static str = "{AAA8D5A5-F1D6-4259-BAA8-78E7EF60835E}";

pub const FOLDERID_ROAMINGTILES: &'static str = "{00BCFC5A-ED94-4E48-96A1-3F6217F21990}";

pub const FOLDERID_SAMPLEMUSIC: &'static str = "{B250C668-F57D-4EE1-A63C-290EE7D1AA1F}";

pub const FOLDERID_SAMPLEPICTURES: &'static str = "{C4900540-2379-4C75-844B-64E6FAF8716B}";

pub const FOLDERID_SAMPLEPLAYLISTS: &'static str = "{15CA69B3-30EE-49C1-ACE1-6B5EC372AFB5}";

pub const FOLDERID_SAMPLEVIDEOS: &'static str = "{859EAD94-2E85-48AD-A71A-0969CB56A6CD}";

pub const FOLDERID_SAVEDGAMES: &'static str = "{4C5C32FF-BB9D-43B0-B5B4-2D72E54EAAA4}";

pub const FOLDERID_SAVEDPICTURES: &'static str = "{3B193882-D3AD-4EAB-965A-69829D1FB59F}";

pub const FOLDERID_SAVEDPICTURESLIBRARY: &'static str = "{E25B5812-BE88-4BD9-94B0-29233477B6C3}";

pub const FOLDERID_SAVEDSEARCHES: &'static str = "{7D1D3A04-DEBB-4115-95CF-2F29DA2920DA}";

pub const FOLDERID_SCREENSHOTS: &'static str = "{B7BEDE81-DF94-4682-A7D8-57A52620B86F}";

pub const FOLDERID_SEARCHHISTORY: &'static str = "{0D4C3DB6-03A3-462F-A0E6-08924C41B5D4}";

pub const FOLDERID_SEARCHTEMPLATES: &'static str = "{7E636BFE-DFA9-4D5E-B456-D7B39851D8A9}";

pub const FOLDERID_SENDTO: &'static str = "{8983036C-27C0-404B-8F08-102D10DCFD74}";

pub const FOLDERID_SIDEBARDEFAULTPARTS: &'static str = "{7B396E54-9EC5-4300-BE0A-2482EBAE1A26}";

pub const FOLDERID_SIDEBARPARTS: &'static str = "{A75D362E-50FC-4FB7-AC2C-A8BEAA314493}";

pub const FOLDERID_SKYDRIVE: &'static str = "{A52BBA46-E9E1-435F-B3D9-28DAA648C0F6}";

pub const FOLDERID_SKYDRIVECAMERAROLL: &'static str = "{767E6811-49CB-4273-87C2-20F355E1085B}";

pub const FOLDERID_SKYDRIVEDOCUMENTS: &'static str = "{24D89E24-2F19-4534-9DDE-6A6671FBB8FE}";

pub const FOLDERID_SKYDRIVEPICTURES: &'static str = "{339719B5-8C47-4894-94C2-D8F77ADD44A6}";

pub const FOLDERID_STARTMENU: &'static str = "{625B53C3-AB48-4EC1-BA1F-A1EF4146FC19}";

pub const FOLDERID_STARTUP: &'static str = "{B97D20BB-F46A-4C97-BA10-5E3608430854}";

pub const FOLDERID_SYSTEM: &'static str = "{1AC14E77-02E7-4E5D-B744-2EB1AE5198B7}";

pub const FOLDERID_SYSTEMX86: &'static str = "{D65231B0-B2F1-4857-A4CE-A8E7C6EA7D27}";

pub const FOLDERID_TEMPLATES: &'static str = "{A63293E8-664E-48DB-A079-DF759E0509F7}";

pub const FOLDERID_USERPINNED: &'static str = "{9E3995AB-1F9C-4F13-B827-48B24B6C7174}";

pub const FOLDERID_USERPROFILES: &'static str = "{0762D272-C50A-4BB0-A382-697DCD729B80}";

pub const FOLDERID_USERPROGRAMFILES: &'static str = "{5CD7AEE2-2219-4A67-B85D-6C9CE15660CB}";

pub const FOLDERID_USERPROGRAMFILESCOMMON: &'static str = "{BCBD3057-CA5C-4622-B42D-BC56DB0AE516}";

pub const FOLDERID_VIDEOS: &'static str = "{18989B1D-99B5-455B-841C-AB7C74E4DDFC}";

pub const FOLDERID_VIDEOSLIBRARY: &'static str = "{491E922F-5643-4AF4-A7EB-4E7A138D8174}";

pub const FOLDERID_WINDOWS: &'static str = "{F38BF404-1D43-42F2-9305-67DE0B28FC23}";

pub const FOLDERID_ACCOUNT_PICTURES_VALUE: &'static str = "%APPDATA%\\Microsoft\\Windows\\AccountPictures";

pub const FOLDERID_ADMINTOOLS_VALUE: &'static str = "%APPDATA%\\Microsoft\\Windows\\Start Menu\\Programs\\Administrative Tools";

pub const FOLDERID_APPDATADESKTOP_VALUE: &'static str = "%LOCALAPPDATA%\\Desktop";

pub const FOLDERID_APPDATADOCUMENTS_VALUE: &'static str = "%LOCALAPPDATA%\\Documents";

pub const FOLDERID_APPDATAFAVORITES_VALUE: &'static str = "%LOCALAPPDATA%\\Favorites";

pub const FOLDERID_APPDATAPROGRAMDATA_VALUE: &'static str = "%LOCALAPPDATA%\\ProgramData";

pub const FOLDERID_APPLICATIONSHORTCUTS_VALUE: &'static str = "%LOCALAPPDATA%\\Microsoft\\Windows\\Application Shortcuts";

pub const FOLDERID_CAMERAROLL_VALUE: &'static str = "%USERPROFILE%\\Pictures\\Camera Roll";

pub const FOLDERID_CDBURNING_VALUE: &'static str = "%LOCALAPPDATA%\\Microsoft\\Windows\\Burn\\Burn";

pub const FOLDERID_COMMONADMINTOOLS_VALUE: &'static str = "%ALLUSERSPROFILE%\\Microsoft\\Windows\\Start Menu\\Programs\\Administrative Tools";

pub const FOLDERID_COMMONOEMLINKS_VALUE: &'static str = "%ALLUSERSPROFILE%\\OEM Links";

pub const FOLDERID_COMMONPROGRAMS_VALUE: &'static str = "%ALLUSERSPROFILE%\\Microsoft\\Windows\\Start Menu\\Programs";

pub const FOLDERID_COMMONSTARTMENU_VALUE: &'static str = "%ALLUSERSPROFILE%\\Microsoft\\Windows\\Start Menu";

pub const FOLDERID_COMMONSTARTUP_VALUE: &'static str = "%ALLUSERSPROFILE%\\Microsoft\\Windows\\Start Menu\\Programs\\StartUp";

pub const FOLDERID_COMMONTEMPLATES_VALUE: &'static str = "%ALLUSERSPROFILE%\\Microsoft\\Windows\\Templates";

pub const FOLDERID_CONTACTS_VALUE: &'static str = "%USERPROFILE%\\Contacts";

pub const FOLDERID_COOKIES_VALUE: &'static str = "%APPDATA%\\Microsoft\\Windows\\Cookies";

pub const FOLDERID_DESKTOP_VALUE: &'static str = "%USERPROFILE%\\Desktop";

pub const FOLDERID_DEVICEMETADATASTORE_VALUE: &'static str = "%ALLUSERSPROFILE%\\Microsoft\\Windows\\DeviceMetadataStore";

pub const FOLDERID_DOCUMENTS_VALUE: &'static str = "%USERPROFILE%\\Documents";

pub const FOLDERID_DOCUMENTSLIBRARY_VALUE: &'static str = "%APPDATA%\\Microsoft\\Windows\\Libraries\\Documents.library-ms";

pub const FOLDERID_DOWNLOADS_VALUE: &'static str = "%USERPROFILE%\\Downloads";

pub const FOLDERID_FAVORITES_VALUE: &'static str = "%USERPROFILE%\\Favorites";

pub const FOLDERID_FONTS_VALUE: &'static str = "%windir%\\Fonts";

pub const FOLDERID_GAMETASKS_VALUE: &'static str = "%LOCALAPPDATA%\\Microsoft\\Windows\\GameExplorer";

pub const FOLDERID_HISTORY_VALUE: &'static str = "%LOCALAPPDATA%\\Microsoft\\Windows\\History";

pub const FOLDERID_IMPLICITAPPSHORTCUTS_VALUE: &'static str = "%APPDATA%\\Microsoft\\Internet Explorer\\Quick Launch\\User Pinned\\ImplicitAppShortcuts";

pub const FOLDERID_INTERNETCACHE_VALUE: &'static str = "%LOCALAPPDATA%\\Microsoft\\Windows\\Temporary Internet Files";

pub const FOLDERID_LIBRARIES_VALUE: &'static str = "%APPDATA%\\Microsoft\\Windows\\Libraries";

pub const FOLDERID_LINKS_VALUE: &'static str = "%USERPROFILE%\\Links";

pub const FOLDERID_LOCALAPPDATA_VALUE: &'static str = "%LOCALAPPDATA%";

pub const FOLDERID_LOCALAPPDATALOW_VALUE: &'static str = "%USERPROFILE%\\AppData\\LocalLow";

pub const FOLDERID_MUSIC_VALUE: &'static str = "%USERPROFILE%\\Music";

pub const FOLDERID_MUSICLIBRARY_VALUE: &'static str = "%APPDATA%\\Microsoft\\Windows\\Libraries\\Music.library-ms";

pub const FOLDERID_NETHOOD_VALUE: &'static str = "%APPDATA%\\Microsoft\\Windows\\Network Shortcuts";

pub const FOLDERID_OBJECTS3D_VALUE: &'static str = "%USERPROFILE%\\3D Objects";

pub const FOLDERID_ORIGINALIMAGES_VALUE: &'static str = "%LOCALAPPDATA%\\Microsoft\\Windows Photo Gallery\\Original Images";

pub const FOLDERID_PHOTOALBUMS_VALUE: &'static str = "%USERPROFILE%\\Pictures\\Slide Shows";

pub const FOLDERID_PICTURESLIBRARY_VALUE: &'static str = "%APPDATA%\\Microsoft\\Windows\\Libraries\\Pictures.library-ms";

pub const FOLDERID_PICTURES_VALUE: &'static str = "%USERPROFILE%\\Pictures";

pub const FOLDERID_PLAYLISTS_VALUE: &'static str = "%USERPROFILE%\\Music\\Playlists";

pub const FOLDERID_PRINTHOOD_VALUE: &'static str = "%APPDATA%\\Microsoft\\Windows\\Printer Shortcuts";

pub const FOLDERID_PROFILE_VALUE: &'static str = "%USERPROFILE%";

pub const FOLDERID_PROGRAMDATA_VALUE: &'static str = "%ALLUSERSPROFILE%";

pub const FOLDERID_PROGRAMFILES_VALUE: &'static str = "%ProgramFiles%";

pub const FOLDERID_PROGRAMFILESX64_VALUE: &'static str = "%ProgramFiles%";

pub const FOLDERID_PROGRAMFILESX86_VALUE: &'static str = "%ProgramFiles%";

pub const FOLDERID_PROGRAMFILESCOMMON_VALUE: &'static str = "%ProgramFiles%\\Common Files";

pub const FOLDERID_PROGRAMFILESCOMMONX64_VALUE: &'static str = "%ProgramFiles%\\Common Files";

pub const FOLDERID_PROGRAMFILESCOMMONX86_VALUE: &'static str = "%ProgramFiles%\\Common Files";

pub const FOLDERID_PROGRAMS_VALUE: &'static str = "%APPDATA%\\Microsoft\\Windows\\Start Menu\\Programs";

pub const FOLDERID_PUBLIC_VALUE: &'static str = "%PUBLIC%";

pub const FOLDERID_PUBLICDESKTOP_VALUE: &'static str = "%PUBLIC%\\Desktop";

pub const FOLDERID_PUBLICDOCUMENTS_VALUE: &'static str = "%PUBLIC%\\Documents";

pub const FOLDERID_PUBLICDOWNLOADS_VALUE: &'static str = "%PUBLIC%\\Downloads";

pub const FOLDERID_PUBLICGAMETASKS_VALUE: &'static str = "%ALLUSERSPROFILE%\\Microsoft\\Windows\\GameExplorer";

pub const FOLDERID_PUBLICLIBRARIES_VALUE: &'static str = "%ALLUSERSPROFILE%\\Microsoft\\Windows\\Libraries";

pub const FOLDERID_PUBLICMUSIC_VALUE: &'static str = "%PUBLIC%\\Music";

pub const FOLDERID_PUBLICPICTURES_VALUE: &'static str = "%PUBLIC%\\Pictures";

pub const FOLDERID_PUBLICRINGTONES_VALUE: &'static str = "%ALLUSERSPROFILE%\\Microsoft\\Windows\\Ringtones";

pub const FOLDERID_PUBLICUSERTILES_VALUE: &'static str = "%PUBLIC%\\AccountPictures";

pub const FOLDERID_PUBLICVIDEOS_VALUE: &'static str = "%PUBLIC%\\Videos";

pub const FOLDERID_QUICKLAUNCH_VALUE: &'static str = "%APPDATA%\\Microsoft\\Internet Explorer\\Quick Launch";

pub const FOLDERID_RECENT_VALUE: &'static str = "%APPDATA%\\Microsoft\\Windows\\Recent";

pub const FOLDERID_RECORDEDTVLIBRARY_VALUE: &'static str = "%PUBLIC%\\RecordedTV.library-ms";

pub const FOLDERID_RESOURCEDIR_VALUE: &'static str = "%windir%\\Resources";

pub const FOLDERID_ROAMINGAPPDATA_VALUE: &'static str = "%APPDATA%";

pub const FOLDERID_ROAMEDTILEIMAGES_VALUE: &'static str = "%LOCALAPPDATA%\\Microsoft\\Windows\\RoamedTileImages";

pub const FOLDERID_ROAMINGTILES_VALUE: &'static str = "%LOCALAPPDATA%\\Microsoft\\Windows\\RoamingTiles";

pub const FOLDERID_SAMPLEMUSIC_VALUE: &'static str = "%PUBLIC%\\Music\\Sample Music";

pub const FOLDERID_SAMPLEPICTURES_VALUE: &'static str = "%PUBLIC%\\Pictures\\Sample Pictures";

pub const FOLDERID_SAMPLEPLAYLISTS_VALUE: &'static str = "%PUBLIC%\\Music\\Sample Playlists";

pub const FOLDERID_SAMPLEVIDEOS_VALUE: &'static str = "%PUBLIC%\\Videos\\Sample Videos";

pub const FOLDERID_SAVEDGAMES_VALUE: &'static str = "%USERPROFILE%\\Saved Games";

pub const FOLDERID_SAVEDPICTURES_VALUE: &'static str = "%USERPROFILE%\\Pictures\\Saved Pictures";

pub const FOLDERID_SAVEDPICTURESLIBRARY_VALUE: &'static str = "%APPDATA%\\Microsoft\\Windows\\Libraries\\SavedPictures.library-ms";

pub const FOLDERID_SAVEDSEARCHES_VALUE: &'static str = "%USERPROFILE%\\Searches";

pub const FOLDERID_SCREENSHOTS_VALUE: &'static str = "%USERPROFILE%\\Pictures\\Screenshots";

pub const FOLDERID_SEARCHHISTORY_VALUE: &'static str = "%LOCALAPPDATA%\\Microsoft\\Windows\\ConnectedSearch\\History";

pub const FOLDERID_SEARCHTEMPLATES_VALUE: &'static str = "%LOCALAPPDATA%\\Microsoft\\Windows\\ConnectedSearch\\Templates";

pub const FOLDERID_SENDTO_VALUE: &'static str = "%APPDATA%\\Microsoft\\Windows\\SendTo";

pub const FOLDERID_SIDEBARDEFAULTPARTS_VALUE: &'static str = "%ProgramFiles%\\Windows Sidebar\\Gadgets";

pub const FOLDERID_SIDEBARPARTS_VALUE: &'static str = "%LOCALAPPDATA%\\Microsoft\\Windows Sidebar\\Gadgets";

pub const FOLDERID_SKYDRIVE_VALUE: &'static str = "%USERPROFILE%\\OneDrive";

pub const FOLDERID_SKYDRIVECAMERAROLL_VALUE: &'static str = "%USERPROFILE%\\OneDrive\\Pictures\\Camera Roll";

pub const FOLDERID_SKYDRIVEDOCUMENTS_VALUE: &'static str = "%USERPROFILE%\\OneDrive\\Documents";

pub const FOLDERID_SKYDRIVEPICTURES_VALUE: &'static str = "%USERPROFILE%\\OneDrive\\Pictures";

pub const FOLDERID_STARTMENU_VALUE: &'static str = "%APPDATA%\\Microsoft\\Windows\\Start Menu";

pub const FOLDERID_STARTUP_VALUE: &'static str = "%APPDATA%\\Microsoft\\Windows\\Start Menu\\Programs\\StartUp";

pub const FOLDERID_SYSTEM_VALUE: &'static str = "%windir%\\system32";

pub const FOLDERID_SYSTEMX86_VALUE: &'static str = "%windir%\\system32";

pub const FOLDERID_TEMPLATES_VALUE: &'static str = "%APPDATA%\\Microsoft\\Windows\\Templates";

pub const FOLDERID_USERPINNED_VALUE: &'static str = "%APPDATA%\\Microsoft\\Internet Explorer\\Quick Launch\\User Pinned";

pub const FOLDERID_USERPROFILES_VALUE: &'static str = "%SystemDrive%\\Users";

pub const FOLDERID_USERPROGRAMFILES_VALUE: &'static str = "%LOCALAPPDATA%\\Programs";

pub const FOLDERID_USERPROGRAMFILESCOMMON_VALUE: &'static str = "%LOCALAPPDATA%\\Programs\\Common";

pub const FOLDERID_VIDEOS_VALUE: &'static str = "%USERPROFILE%\\Videos";

pub const FOLDERID_VIDEOSLIBRARY_VALUE: &'static str = "%APPDATA%\\Microsoft\\Windows\\Libraries\\Videos.library-ms";

pub const FOLDERID_WINDOWS_VALUE: &'static str = "%windir%";

/// The path that the identifier of a known folder stands for.
pub open spec fn known_folder(id: Seq<char>) -> Option<Seq<char>> {
    if id == FOLDERID_ACCOUNT_PICTURES@ {
        Some(FOLDERID_ACCOUNT_PICTURES_VALUE@)
    }     else if id == FOLDERID_ADMINTOOLS@ {
        Some(FOLDERID_ADMINTOOLS_VALUE@)
    }     else if id == FOLDERID_APPDATADESKTOP@ {
        Some(FOLDERID_APPDATADESKTOP_VALUE@)
    }     else if id == FOLDERID_APPDATADOCUMENTS@ {
        Some(FOLDERID_APPDATADOCUMENTS_VALUE@)
    }     else if id == FOLDERID_APPDATAFAVORITES@ {
        Some(FOLDERID_APPDATAFAVORITES_VALUE@)
    }     else if id == FOLDERID_APPDATAPROGRAMDATA@ {
        Some(FOLDERID_APPDATAPROGRAMDATA_VALUE@)
    }     else if id == FOLDERID_APPLICATIONSHORTCUTS@ {
        Some(FOLDERID_APPLICATIONSHORTCUTS_VALUE@)
    }     else if id == FOLDERID_CAMERAROLL@ {
        Some(FOLDERID_CAMERAROLL_VALUE@)
    }     else if id == FOLDERID_CDBURNING@ {
        Some(FOLDERID_CDBURNING_VALUE@)
    }     else if id == FOLDERID_COMMONADMINTOOLS@ {
        Some(FOLDERID_COMMONADMINTOOLS_VALUE@)
    }     else if id == FOLDERID_COMMONOEMLINKS@ {
        Some(FOLDERID_COMMONOEMLINKS_VALUE@)
    }     else if id == FOLDERID_COMMONPROGRAMS@ {
        Some(FOLDERID_COMMONPROGRAMS_VALUE@)
    }     else if id == FOLDERID_COMMONSTARTMENU@ {
        Some(FOLDERID_COMMONSTARTMENU_VALUE@)
    }     else if id == FOLDERID_COMMONSTARTUP@ {
        Some(FOLDERID_COMMONSTARTUP_VALUE@)
    }     else if id == FOLDERID_COMMONTEMPLATES@ {
        Some(FOLDERID_COMMONTEMPLATES_VALUE@)
    }     else if id == FOLDERID_CONTACTS@ {
        Some(FOLDERID_CONTACTS_VALUE@)
    }     else if id == FOLDERID_COOKIES@ {
        Some(FOLDERID_COOKIES_VALUE@)
    }     else if id == FOLDERID_DESKTOP@ {
        Some(FOLDERID_DESKTOP_VALUE@)
    }     else if id == FOLDERID_DEVICEMETADATASTORE@ {
        Some(FOLDERID_DEVICEMETADATASTORE_VALUE@)
    }     else if id == FOLDERID_DOCUMENTS@ {
        Some(FOLDERID_DOCUMENTS_VALUE@)
    }     else if id == FOLDERID_DOCUMENTSLIBRARY@ {
        Some(FOLDERID_DOCUMENTSLIBRARY_VALUE@)
    }     else if id == FOLDERID_DOWNLOADS@ {
        Some(FOLDERID_DOWNLOADS_VALUE@)
    }     else if id == FOLDERID_FAVORITES@ {
        Some(FOLDERID_FAVORITES_VALUE@)
    }     else if id == FOLDERID_FONTS@ {
        Some(FOLDERID_FONTS_VALUE@)
    }     else if id == FOLDERID_GAMETASKS@ {
        Some(FOLDERID_GAMETASKS_VALUE@)
    }     else if id == FOLDERID_HISTORY@ {
        Some(FOLDERID_HISTORY_VALUE@)
    }     else if id == FOLDERID_IMPLICITAPPSHORTCUTS@ {
        Some(FOLDERID_IMPLICITAPPSHORTCUTS_VALUE@)
    }     else if id == FOLDERID_INTERNETCACHE@ {
        Some(FOLDERID_INTERNETCACHE_VALUE@)
    }     else if id == FOLDERID_LIBRARIES@ {
        Some(FOLDERID_LIBRARIES_VALUE@)
    }     else if id == FOLDERID_LINKS@ {
        Some(FOLDERID_LINKS_VALUE@)
    }     else if id == FOLDERID_LOCALAPPDATA@ {
        Some(FOLDERID_LOCALAPPDATA_VALUE@)
    }     else if id == FOLDERID_LOCALAPPDATALOW@ {
        Some(FOLDERID_LOCALAPPDATALOW_VALUE@)
    }     else if id == FOLDERID_MUSIC@ {
        Some(FOLDERID_MUSIC_VALUE@)
    }     else if id == FOLDERID_MUSICLIBRARY@ {
        Some(FOLDERID_MUSICLIBRARY_VALUE@)
    }     else if id == FOLDERID_NETHOOD@ {
        Some(FOLDERID_NETHOOD_VALUE@)
    }     else if id == FOLDERID_OBJECTS3D@ {
        Some(FOLDERID_OBJECTS3D_VALUE@)
    }     else if id == FOLDERID_ORIGINALIMAGES@ {
        Some(FOLDERID_ORIGINALIMAGES_VALUE@)
    }     else if id == FOLDERID_PHOTOALBUMS@ {
        Some(FOLDERID_PHOTOALBUMS_VALUE@)
    }     else if id == FOLDERID_PICTURESLIBRARY@ {
        Some(FOLDERID_PICTURESLIBRARY_VALUE@)
    }     else if id == FOLDERID_PICTURES@ {
        Some(FOLDERID_PICTURES_VALUE@)
    }     else if id == FOLDERID_PLAYLISTS@ {
        Some(FOLDERID_PLAYLISTS_VALUE@)
    }     else if id == FOLDERID_PRINTHOOD@ {
        Some(FOLDERID_PRINTHOOD_VALUE@)
    }     else if id == FOLDERID_PROFILE@ {
        Some(FOLDERID_PROFILE_VALUE@)
    }     else if id == FOLDERID_PROGRAMDATA@ {
        Some(FOLDERID_PROGRAMDATA_VALUE@)
    }     else if id == FOLDERID_PROGRAMFILES@ {
        Some(FOLDERID_PROGRAMFILES_VALUE@)
    }     else if id == FOLDERID_PROGRAMFILESX64@ {
        Some(FOLDERID_PROGRAMFILESX64_VALUE@)
    }     else if id == FOLDERID_PROGRAMFILESX86@ {
        Some(FOLDERID_PROGRAMFILESX86_VALUE@)
    }     else if id == FOLDERID_PROGRAMFILESCOMMON@ {
        Some(FOLDERID_PROGRAMFILESCOMMON_VALUE@)
    }     else if id == FOLDERID_PROGRAMFILESCOMMONX64@ {
        Some(FOLDERID_PROGRAMFILESCOMMONX64_VALUE@)
    }     else if id == FOLDERID_PROGRAMFILESCOMMONX86@ {
        Some(FOLDERID_PROGRAMFILESCOMMONX86_VALUE@)
    }     else if id == FOLDERID_PROGRAMS@ {
        Some(FOLDERID_PROGRAMS_VALUE@)
    }     else if id == FOLDERID_PUBLIC@ {
        Some(FOLDERID_PUBLIC_VALUE@)
    }     else if id == FOLDERID_PUBLICDESKTOP@ {
        Some(FOLDERID_PUBLICDESKTOP_VALUE@)
    }     else if id == FOLDERID_PUBLICDOCUMENTS@ {
        Some(FOLDERID_PUBLICDOCUMENTS_VALUE@)
    }     else if id == FOLDERID_PUBLICDOWNLOADS@ {
        Some(FOLDERID_PUBLICDOWNLOADS_VALUE@)
    }     else if id == FOLDERID_PUBLICGAMETASKS@ {
        Some(FOLDERID_PUBLICGAMETASKS_VALUE@)
    }     else if id == FOLDERID_PUBLICLIBRARIES@ {
        Some(FOLDERID_PUBLICLIBRARIES_VALUE@)
    }     else if id == FOLDERID_PUBLICMUSIC@ {
        Some(FOLDERID_PUBLICMUSIC_VALUE@)
    }     else if id == FOLDERID_PUBLICPICTURES@ {
        Some(FOLDERID_PUBLICPICTURES_VALUE@)
    }     else if id == FOLDERID_PUBLICRINGTONES@ {
        Some(FOLDERID_PUBLICRINGTONES_VALUE@)
    }     else if id == FOLDERID_PUBLICUSERTILES@ {
        Some(FOLDERID_PUBLICUSERTILES_VALUE@)
    }     else if id == FOLDERID_PUBLICVIDEOS@ {
        Some(FOLDERID_PUBLICVIDEOS_VALUE@)
    }     else if id == FOLDERID_QUICKLAUNCH@ {
        Some(FOLDERID_QUICKLAUNCH_VALUE@)
    }     else if id == FOLDERID_RECENT@ {
        Some(FOLDERID_RECENT_VALUE@)
    }     else if id == FOLDERID_RECORDEDTVLIBRARY@ {
        Some(FOLDERID_RECORDEDTVLIBRARY_VALUE@)
    }     else if id == FOLDERID_RESOURCEDIR@ {
        Some(FOLDERID_RESOURCEDIR_VALUE@)
    }     else if id == FOLDERID_ROAMINGAPPDATA@ {
        Some(FOLDERID_ROAMINGAPPDATA_VALUE@)
    }     else if id == FOLDERID_ROAMEDTILEIMAGES@ {
        Some(FOLDERID_ROAMEDTILEIMAGES_VALUE@)
    }     else if id == FOLDERID_ROAMINGTILES@ {
        Some(FOLDERID_ROAMINGTILES_VALUE@)
    }     else if id == FOLDERID_SAMPLEMUSIC@ {
        Some(FOLDERID_SAMPLEMUSIC_VALUE@)
    }     else if id == FOLDERID_SAMPLEPICTURES@ {
        Some(FOLDERID_SAMPLEPICTURES_VALUE@)
    }     else if id == FOLDERID_SAMPLEPLAYLISTS@ {
        Some(FOLDERID_SAMPLEPLAYLISTS_VALUE@)
    }     else if id == FOLDERID_SAMPLEVIDEOS@ {
        Some(FOLDERID_SAMPLEVIDEOS_VALUE@)
    }     else if id == FOLDERID_SAVEDGAMES@ {
        Some(FOLDERID_SAVEDGAMES_VALUE@)
    }     else if id == FOLDERID_SAVEDPICTURES@ {
        Some(FOLDERID_SAVEDPICTURES_VALUE@)
    }     else if id == FOLDERID_SAVEDPICTURESLIBRARY@ {
        Some(FOLDERID_SAVEDPICTURESLIBRARY_VALUE@)
    }     else if id == FOLDERID_SAVEDSEARCHES@ {
        Some(FOLDERID_SAVEDSEARCHES_VALUE@)
    }     else if id == FOLDERID_SCREENSHOTS@ {
        Some(FOLDERID_SCREENSHOTS_VALUE@)
    }     else if id == FOLDERID_SEARCHHISTORY@ {
        Some(FOLDERID_SEARCHHISTORY_VALUE@)
    }     else if id == FOLDERID_SEARCHTEMPLATES@ {
        Some(FOLDERID_SEARCHTEMPLATES_VALUE@)
    }     else if id == FOLDERID_SENDTO@ {
        Some(FOLDERID_SENDTO_VALUE@)
    }     else if id == FOLDERID_SIDEBARDEFAULTPARTS@ {
        Some(FOLDERID_SIDEBARDEFAULTPARTS_VALUE@)
    }     else if id == FOLDERID_SIDEBARPARTS@ {
        Some(FOLDERID_SIDEBARPARTS_VALUE@)
    }     else if id == FOLDERID_SKYDRIVE@ {
        Some(FOLDERID_SKYDRIVE_VALUE@)
    }     else if id == FOLDERID_SKYDRIVECAMERAROLL@ {
        Some(FOLDERID_SKYDRIVECAMERAROLL_VALUE@)
    }     else if id == FOLDERID_SKYDRIVEDOCUMENTS@ {
        Some(FOLDERID_SKYDRIVEDOCUMENTS_VALUE@)
    }     else if id == FOLDERID_SKYDRIVEPICTURES@ {
        Some(FOLDERID_SKYDRIVEPICTURES_VALUE@)
    }     else if id == FOLDERID_STARTMENU@ {
        Some(FOLDERID_STARTMENU_VALUE@)
    }     else if id == FOLDERID_STARTUP@ {
        Some(FOLDERID_STARTUP_VALUE@)
    }     else if id == FOLDERID_SYSTEM@ {
        Some(FOLDERID_SYSTEM_VALUE@)
    }     else if id == FOLDERID_SYSTEMX86@ {
        Some(FOLDERID_SYSTEMX86_VALUE@)
    }     else if id == FOLDERID_TEMPLATES@ {
        Some(FOLDERID_TEMPLATES_VALUE@)
    }     else if id == FOLDERID_USERPINNED@ {
        Some(FOLDERID_USERPINNED_VALUE@)
    }     else if id == FOLDERID_USERPROFILES@ {
        Some(FOLDERID_USERPROFILES_VALUE@)
    }     else if id == FOLDERID_USERPROGRAMFILES@ {
        Some(FOLDERID_USERPROGRAMFILES_VALUE@)
    }     else if id == FOLDERID_USERPROGRAMFILESCOMMON@ {
        Some(FOLDERID_USERPROGRAMFILESCOMMON_VALUE@)
    }     else if id == FOLDERID_VIDEOS@ {
        Some(FOLDERID_VIDEOS_VALUE@)
    }     else if id == FOLDERID_VIDEOSLIBRARY@ {
        Some(FOLDERID_VIDEOSLIBRARY_VALUE@)
    }     else if id == FOLDERID_WINDOWS@ {
        Some(FOLDERID_WINDOWS_VALUE@)
    } else {
        None
    }
}

/// The path that the identifier of a known folder stands for.
pub fn csidl_value(csidl: &str) -> (r: Option<&'static str>)
    ensures
        match r {
            Some(v) => known_folder(csidl@) == Some(v@),
            None => known_folder(csidl@) is None,
        },
{
    if str_eq(csidl, FOLDERID_ACCOUNT_PICTURES) {
        Some(FOLDERID_ACCOUNT_PICTURES_VALUE)
    }     else if str_eq(csidl, FOLDERID_ADMINTOOLS) {
        Some(FOLDERID_ADMINTOOLS_VALUE)
    }     else if str_eq(csidl, FOLDERID_APPDATADESKTOP) {
        Some(FOLDERID_APPDATADESKTOP_VALUE)
    }     else if str_eq(csidl, FOLDERID_APPDATADOCUMENTS) {
        Some(FOLDERID_APPDATADOCUMENTS_VALUE)
    }     else if str_eq(csidl, FOLDERID_APPDATAFAVORITES) {
        Some(FOLDERID_APPDATAFAVORITES_VALUE)
    }     else if str_eq(csidl, FOLDERID_APPDATAPROGRAMDATA) {
        Some(FOLDERID_APPDATAPROGRAMDATA_VALUE)
    }     else if str_eq(csidl, FOLDERID_APPLICATIONSHORTCUTS) {
        Some(FOLDERID_APPLICATIONSHORTCUTS_VALUE)
    }     else if str_eq(csidl, FOLDERID_CAMERAROLL) {
        Some(FOLDERID_CAMERAROLL_VALUE)
    }     else if str_eq(csidl, FOLDERID_CDBURNING) {
        Some(FOLDERID_CDBURNING_VALUE)
    }     else if str_eq(csidl, FOLDERID_COMMONADMINTOOLS) {
        Some(FOLDERID_COMMONADMINTOOLS_VALUE)
    }     else if str_eq(csidl, FOLDERID_COMMONOEMLINKS) {
        Some(FOLDERID_COMMONOEMLINKS_VALUE)
    }     else if str_eq(csidl, FOLDERID_COMMONPROGRAMS) {
        Some(FOLDERID_COMMONPROGRAMS_VALUE)
    }     else if str_eq(csidl, FOLDERID_COMMONSTARTMENU) {
        Some(FOLDERID_COMMONSTARTMENU_VALUE)
    }     else if str_eq(csidl, FOLDERID_COMMONSTARTUP) {
        Some(FOLDERID_COMMONSTARTUP_VALUE)
    }     else if str_eq(csidl, FOLDERID_COMMONTEMPLATES) {
        Some(FOLDERID_COMMONTEMPLATES_VALUE)
    }     else if str_eq(csidl, FOLDERID_CONTACTS) {
        Some(FOLDERID_CONTACTS_VALUE)
    }     else if str_eq(csidl, FOLDERID_COOKIES) {
        Some(FOLDERID_COOKIES_VALUE)
    }     else if str_eq(csidl, FOLDERID_DESKTOP) {
        Some(FOLDERID_DESKTOP_VALUE)
    }     else if str_eq(csidl, FOLDERID_DEVICEMETADATASTORE) {
        Some(FOLDERID_DEVICEMETADATASTORE_VALUE)
    }     else if str_eq(csidl, FOLDERID_DOCUMENTS) {
        Some(FOLDERID_DOCUMENTS_VALUE)
    }     else if str_eq(csidl, FOLDERID_DOCUMENTSLIBRARY) {
        Some(FOLDERID_DOCUMENTSLIBRARY_VALUE)
    }     else if str_eq(csidl, FOLDERID_DOWNLOADS) {
        Some(FOLDERID_DOWNLOADS_VALUE)
    }     else if str_eq(csidl, FOLDERID_FAVORITES) {
        Some(FOLDERID_FAVORITES_VALUE)
    }     else if str_eq(csidl, FOLDERID_FONTS) {
        Some(FOLDERID_FONTS_VALUE)
    }     else if str_eq(csidl, FOLDERID_GAMETASKS) {
        Some(FOLDERID_GAMETASKS_VALUE)
    }     else if str_eq(csidl, FOLDERID_HISTORY) {
        Some(FOLDERID_HISTORY_VALUE)
    }     else if str_eq(csidl, FOLDERID_IMPLICITAPPSHORTCUTS) {
        Some(FOLDERID_IMPLICITAPPSHORTCUTS_VALUE)
    }     else if str_eq(csidl, FOLDERID_INTERNETCACHE) {
        Some(FOLDERID_INTERNETCACHE_VALUE)
    }     else if str_eq(csidl, FOLDERID_LIBRARIES) {
        Some(FOLDERID_LIBRARIES_VALUE)
    }     else if str_eq(csidl, FOLDERID_LINKS) {
        Some(FOLDERID_LINKS_VALUE)
    }     else if str_eq(csidl, FOLDERID_LOCALAPPDATA) {
        Some(FOLDERID_LOCALAPPDATA_VALUE)
    }     else if str_eq(csidl, FOLDERID_LOCALAPPDATALOW) {
        Some(FOLDERID_LOCALAPPDATALOW_VALUE)
    }     else if str_eq(csidl, FOLDERID_MUSIC) {
        Some(FOLDERID_MUSIC_VALUE)
    }     else if str_eq(csidl, FOLDERID_MUSICLIBRARY) {
        Some(FOLDERID_MUSICLIBRARY_VALUE)
    }     else if str_eq(csidl, FOLDERID_NETHOOD) {
        Some(FOLDERID_NETHOOD_VALUE)
    }     else if str_eq(csidl, FOLDERID_OBJECTS3D) {
        Some(FOLDERID_OBJECTS3D_VALUE)
    }     else if str_eq(csidl, FOLDERID_ORIGINALIMAGES) {
        Some(FOLDERID_ORIGINALIMAGES_VALUE)
    }     else if str_eq(csidl, FOLDERID_PHOTOALBUMS) {
        Some(FOLDERID_PHOTOALBUMS_VALUE)
    }     else if str_eq(csidl, FOLDERID_PICTURESLIBRARY) {
        Some(FOLDERID_PICTURESLIBRARY_VALUE)
    }     else if str_eq(csidl, FOLDERID_PICTURES) {
        Some(FOLDERID_PICTURES_VALUE)
    }     else if str_eq(csidl, FOLDERID_PLAYLISTS) {
        Some(FOLDERID_PLAYLISTS_VALUE)
    }     else if str_eq(csidl, FOLDERID_PRINTHOOD) {
        Some(FOLDERID_PRINTHOOD_VALUE)
    }     else if str_eq(csidl, FOLDERID_PROFILE) {
        Some(FOLDERID_PROFILE_VALUE)
    }     else if str_eq(csidl, FOLDERID_PROGRAMDATA) {
        Some(FOLDERID_PROGRAMDATA_VALUE)
    }     else if str_eq(csidl, FOLDERID_PROGRAMFILES) {
        Some(FOLDERID_PROGRAMFILES_VALUE)
    }     else if str_eq(csidl, FOLDERID_PROGRAMFILESX64) {
        Some(FOLDERID_PROGRAMFILESX64_VALUE)
    }     else if str_eq(csidl, FOLDERID_PROGRAMFILESX86) {
        Some(FOLDERID_PROGRAMFILESX86_VALUE)
    }     else if str_eq(csidl, FOLDERID_PROGRAMFILESCOMMON) {
        Some(FOLDERID_PROGRAMFILESCOMMON_VALUE)
    }     else if str_eq(csidl, FOLDERID_PROGRAMFILESCOMMONX64) {
        Some(FOLDERID_PROGRAMFILESCOMMONX64_VALUE)
    }     else if str_eq(csidl, FOLDERID_PROGRAMFILESCOMMONX86) {
        Some(FOLDERID_PROGRAMFILESCOMMONX86_VALUE)
    }     else if str_eq(csidl, FOLDERID_PROGRAMS) {
        Some(FOLDERID_PROGRAMS_VALUE)
    }     else if str_eq(csidl, FOLDERID_PUBLIC) {
        Some(FOLDERID_PUBLIC_VALUE)
    }     else if str_eq(csidl, FOLDERID_PUBLICDESKTOP) {
        Some(FOLDERID_PUBLICDESKTOP_VALUE)
    }     else if str_eq(csidl, FOLDERID_PUBLICDOCUMENTS) {
        Some(FOLDERID_PUBLICDOCUMENTS_VALUE)
    }     else if str_eq(csidl, FOLDERID_PUBLICDOWNLOADS) {
        Some(FOLDERID_PUBLICDOWNLOADS_VALUE)
    }     else if str_eq(csidl, FOLDERID_PUBLICGAMETASKS) {
        Some(FOLDERID_PUBLICGAMETASKS_VALUE)
    }     else if str_eq(csidl, FOLDERID_PUBLICLIBRARIES) {
        Some(FOLDERID_PUBLICLIBRARIES_VALUE)
    }     else if str_eq(csidl, FOLDERID_PUBLICMUSIC) {
        Some(FOLDERID_PUBLICMUSIC_VALUE)
    }     else if str_eq(csidl, FOLDERID_PUBLICPICTURES) {
        Some(FOLDERID_PUBLICPICTURES_VALUE)
    }     else if str_eq(csidl, FOLDERID_PUBLICRINGTONES) {
        Some(FOLDERID_PUBLICRINGTONES_VALUE)
    }     else if str_eq(csidl, FOLDERID_PUBLICUSERTILES) {
        Some(FOLDERID_PUBLICUSERTILES_VALUE)
    }     else if str_eq(csidl, FOLDERID_PUBLICVIDEOS) {
        Some(FOLDERID_PUBLICVIDEOS_VALUE)
    }     else if str_eq(csidl, FOLDERID_QUICKLAUNCH) {
        Some(FOLDERID_QUICKLAUNCH_VALUE)
    }     else if str_eq(csidl, FOLDERID_RECENT) {
        Some(FOLDERID_RECENT_VALUE)
    }     else if str_eq(csidl, FOLDERID_RECORDEDTVLIBRARY) {
        Some(FOLDERID_RECORDEDTVLIBRARY_VALUE)
    }     else if str_eq(csidl, FOLDERID_RESOURCEDIR) {
        Some(FOLDERID_RESOURCEDIR_VALUE)
    }     else if str_eq(csidl, FOLDERID_ROAMINGAPPDATA) {
        Some(FOLDERID_ROAMINGAPPDATA_VALUE)
    }     else if str_eq(csidl, FOLDERID_ROAMEDTILEIMAGES) {
        Some(FOLDERID_ROAMEDTILEIMAGES_VALUE)
    }     else if str_eq(csidl, FOLDERID_ROAMINGTILES) {
        Some(FOLDERID_ROAMINGTILES_VALUE)
    }     else if str_eq(csidl, FOLDERID_SAMPLEMUSIC) {
        Some(FOLDERID_SAMPLEMUSIC_VALUE)
    }     else if str_eq(csidl, FOLDERID_SAMPLEPICTURES) {
        Some(FOLDERID_SAMPLEPICTURES_VALUE)
    }     else if str_eq(csidl, FOLDERID_SAMPLEPLAYLISTS) {
        Some(FOLDERID_SAMPLEPLAYLISTS_VALUE)
    }     else if str_eq(csidl, FOLDERID_SAMPLEVIDEOS) {
        Some(FOLDERID_SAMPLEVIDEOS_VALUE)
    }     else if str_eq(csidl, FOLDERID_SAVEDGAMES) {
        Some(FOLDERID_SAVEDGAMES_VALUE)
    }     else if str_eq(csidl, FOLDERID_SAVEDPICTURES) {
        Some(FOLDERID_SAVEDPICTURES_VALUE)
    }     else if str_eq(csidl, FOLDERID_SAVEDPICTURESLIBRARY) {
        Some(FOLDERID_SAVEDPICTURESLIBRARY_VALUE)
    }     else if str_eq(csidl, FOLDERID_SAVEDSEARCHES) {
        Some(FOLDERID_SAVEDSEARCHES_VALUE)
    }     else if str_eq(csidl, FOLDERID_SCREENSHOTS) {
        Some(FOLDERID_SCREENSHOTS_VALUE)
    }     else if str_eq(csidl, FOLDERID_SEARCHHISTORY) {
        Some(FOLDERID_SEARCHHISTORY_VALUE)
    }     else if str_eq(csidl, FOLDERID_SEARCHTEMPLATES) {
        Some(FOLDERID_SEARCHTEMPLATES_VALUE)
    }     else if str_eq(csidl, FOLDERID_SENDTO) {
        Some(FOLDERID_SENDTO_VALUE)
    }     else if str_eq(csidl, FOLDERID_SIDEBARDEFAULTPARTS) {
        Some(FOLDERID_SIDEBARDEFAULTPARTS_VALUE)
    }     else if str_eq(csidl, FOLDERID_SIDEBARPARTS) {
        Some(FOLDERID_SIDEBARPARTS_VALUE)
    }     else if str_eq(csidl, FOLDERID_SKYDRIVE) {
        Some(FOLDERID_SKYDRIVE_VALUE)
    }     else if str_eq(csidl, FOLDERID_SKYDRIVECAMERAROLL) {
        Some(FOLDERID_SKYDRIVECAMERAROLL_VALUE)
    }     else if str_eq(csidl, FOLDERID_SKYDRIVEDOCUMENTS) {
        Some(FOLDERID_SKYDRIVEDOCUMENTS_VALUE)
    }     else if str_eq(csidl, FOLDERID_SKYDRIVEPICTURES) {
        Some(FOLDERID_SKYDRIVEPICTURES_VALUE)
    }     else if str_eq(csidl, FOLDERID_STARTMENU) {
        Some(FOLDERID_STARTMENU_VALUE)
    }     else if str_eq(csidl, FOLDERID_STARTUP) {
        Some(FOLDERID_STARTUP_VALUE)
    }     else if str_eq(csidl, FOLDERID_SYSTEM) {
        Some(FOLDERID_SYSTEM_VALUE)
    }     else if str_eq(csidl, FOLDERID_SYSTEMX86) {
        Some(FOLDERID_SYSTEMX86_VALUE)
    }     else if str_eq(csidl, FOLDERID_TEMPLATES) {
        Some(FOLDERID_TEMPLATES_VALUE)
    }     else if str_eq(csidl, FOLDERID_USERPINNED) {
        Some(FOLDERID_USERPINNED_VALUE)
    }     else if str_eq(csidl, FOLDERID_USERPROFILES) {
        Some(FOLDERID_USERPROFILES_VALUE)
    }     else if str_eq(csidl, FOLDERID_USERPROGRAMFILES) {
        Some(FOLDERID_USERPROGRAMFILES_VALUE)
    }     else if str_eq(csidl, FOLDERID_USERPROGRAMFILESCOMMON) {
        Some(FOLDERID_USERPROGRAMFILESCOMMON_VALUE)
    }     else if str_eq(csidl, FOLDERID_VIDEOS) {
        Some(FOLDERID_VIDEOS_VALUE)
    }     else if str_eq(csidl, FOLDERID_VIDEOSLIBRARY) {
        Some(FOLDERID_VIDEOSLIBRARY_VALUE)
    }     else if str_eq(csidl, FOLDERID_WINDOWS) {
        Some(FOLDERID_WINDOWS_VALUE)
    } else {
        None
    }
}

/// A path in which the identifier of a known folder at its start, in
/// braces and in capitals or not, is replaced by the path of that folder,
/// with the variables of `vars` filled in as `interpolated` does. A path
/// that does not begin with a brace stays as it is. There is no result where
/// the brace is not closed, the folder is not known, or the path of the
/// folder cannot be interpolated.
pub open spec fn csidl_interpolated(p: Seq<char>, vars: Map<Seq<char>, String>, depth: nat) -> Option<
    Seq<char>,
> {
    if p.len() > 0 && p[0] == '{' {
        let pos = first_index_of(p, '}');
        if pos >= p.len() {
            None
        } else {
            match known_folder(ascii_upper_text(p.take(pos + 1))) {
                Some(folder) => match interpolated(folder, vars, depth) {
                    Some(v) => Some(v + p.skip(pos + 1)),
                    None => None,
                },
                None => None,
            }
        }
    } else {
        Some(p)
    }
}

/// A path in which the identifier of a folder at its start, from the brace
/// that opens it to the first brace that closes it, stands in capitals. A
/// path that does not begin with a brace, or whose brace is not closed,
/// stays as it is.
pub open spec fn with_capital_identifier(p: Seq<char>) -> Seq<char> {
    let pos = first_index_of(p, '}');
    if p.len() > 0 && p[0] == '{' && pos < p.len() {
        ascii_upper_text(p.take(pos + 1)) + p.skip(pos + 1)
    } else {
        p
    }
}

/// Interpolates paths that contains a CSIDL. The identifier is put in
/// capitals in `pth` itself.
pub fn interpolate_csidl_path(pth: &mut String, env_vars: &UserEnvVars) -> (r: Option<String>)
    requires
        env_vars.wf(),
    ensures
        final(pth)@ == with_capital_identifier(old(pth)@),
        match r {
            Some(s) => csidl_interpolated(old(pth)@, env_vars.map(), env_vars.names().len())
                == Some(s@),
            None => csidl_interpolated(old(pth)@, env_vars.map(), env_vars.names().len()) is None,
        },
{
    let n = char_len(pth.as_str());
    if n == 0 || pth.as_str().get_char(0) != '{' {
        return Some(pth.clone());
    }
    let pos = find_char(pth.as_str(), '}');
    if pos >= n {
        return None;
    }
    let csidl = ascii_uppercase(slice(pth.as_str(), 0, pos + 1));
    let rest = String::from_str(slice(pth.as_str(), pos + 1, n));
    let mut whole = csidl.clone();
    whole.append(rest.as_str());
    *pth = whole;
    let csidl_value = csidl_value(csidl.as_str())?;
    let mut ret = interpolate_bounded(csidl_value, env_vars, env_vars.len())?;
    ret.append(rest.as_str());
    Some(ret)
}

} // verus!
